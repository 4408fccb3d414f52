use stack_canary::canary::{Canary, Report, StackInfo};
use stack_canary::measure::measure_stack;
use stack_canary::paint::CANARY_VALUE;

const START: u32 = 0x2000_0000;

fn install(stack_available: u32, data_below_stack: bool, measure_stack: bool) -> Canary {
    let info = StackInfo { start: START, end: START + stack_available, data_below_stack };
    Canary::install(Some(info), false, measure_stack).unwrap().unwrap()
}

fn painted(canary: &Canary) -> Vec<u8> {
    vec![CANARY_VALUE; canary.size()]
}

#[test]
fn canary_value_is_0xaa() {
    assert_eq!(CANARY_VALUE, 0xAA);
}

#[test]
fn measure_intact_region() {
    assert_eq!(measure_stack(START, &[0xAA; 64]), None);
    assert_eq!(measure_stack(START, &[0xAA]), None);
    assert_eq!(measure_stack(START, &[]), None);
}

#[test]
fn measure_single_touched_byte() {
    for x in 0..64usize {
        let mut bytes = [0xAAu8; 64];
        bytes[x] = 0xAB;
        assert_eq!(measure_stack(START, &bytes), Some(START + x as u32));
        assert_eq!(measure_stack(0, &bytes), Some(x as u32));
    }
}

#[test]
fn measure_finds_the_lowest_touched_byte() {
    let mut bytes = [0xAAu8; 64];
    bytes[63] = 0;
    bytes[40] = 1;
    bytes[17] = 0xFF;
    assert_eq!(measure_stack(START, &bytes), Some(START + 17));
    bytes[0] = 0xA9;
    assert_eq!(measure_stack(START, &bytes), Some(START));
}

#[test]
fn measure_region_that_was_used_up() {
    assert_eq!(measure_stack(START, &[0u8; 32]), Some(START));
}

#[test]
fn measure_up_to_the_last_address() {
    let mut bytes = [0xAAu8; 16];
    assert_eq!(measure_stack(0xFFFF_FFF0, &bytes), None);
    bytes[15] = 0;
    assert_eq!(measure_stack(0xFFFF_FFF0, &bytes), Some(0xFFFF_FFFF));
}

#[test]
fn intact_canary_shows_nothing() {
    for measure in [false, true] {
        for data_below_stack in [false, true] {
            let canary = install(4096, data_below_stack, measure);
            let report = canary.touched(&painted(&canary), START + 4096);
            assert_eq!(
                report,
                Report {
                    touched_address: None,
                    min_stack_usage: 0,
                    stack_available: 4096,
                    overflow: false,
                    data_at_risk: false,
                }
            );
        }
    }
}

#[test]
fn touched_byte_gives_address_and_usage() {
    let canary = install(4096, false, false);
    let initial_sp = START + 4096;
    for x in [0usize, 1, 3, 100, 410, 411] {
        let mut bytes = painted(&canary);
        bytes[x] = 0x00;
        let report = canary.touched(&bytes, initial_sp);
        assert_eq!(report.touched_address, Some(START + x as u32));
        assert_eq!(report.min_stack_usage, initial_sp - (START + x as u32));
        assert!(report.overflow);
    }
}

#[test]
fn detection_end_to_end() {
    let canary = install(4096, false, false);
    assert_eq!(canary.size(), 412);

    let initial_sp = 0x2000_1000;
    let mut bytes = painted(&canary);
    bytes[100] = 0x12;
    let report = canary.touched(&bytes, initial_sp);
    assert_eq!(report.touched_address, Some(canary.address() + 100));
    assert_eq!(report.min_stack_usage, initial_sp - (canary.address() + 100));
    assert_eq!(report.min_stack_usage, 3996);
    assert_eq!(report.stack_available, 4096);
    assert!(report.overflow);
    assert!(!report.data_at_risk);
}

#[test]
fn measurement_end_to_end() {
    let canary = install(2048, true, true);
    assert_eq!(canary.size(), 2048);

    // the stack went down through 60% of its memory: everything from there up was written
    let initial_sp = START + 2048;
    let used: u32 = 1229;
    let mut bytes = painted(&canary);
    for byte in &mut bytes[(2048 - used as usize)..] {
        *byte = 0x5A;
    }
    let report = canary.touched(&bytes, initial_sp);
    assert_eq!(report.touched_address, Some(START + 819));
    assert_eq!(report.min_stack_usage, 1229);
    assert_eq!(report.stack_available, 2048);
    let percent = report.min_stack_usage as f64 / report.stack_available as f64 * 100.0;
    assert!((percent - 60.0).abs() < 0.05, "{percent}");
    assert!(!report.overflow);
    assert!(!report.data_at_risk);
}

#[test]
fn measurement_never_reports_an_overflow() {
    for data_below_stack in [false, true] {
        let canary = install(1024, data_below_stack, true);
        let initial_sp = START + 1024;
        for x in [0usize, 1, 512, 1023] {
            let mut bytes = painted(&canary);
            bytes[x] = 0;
            let report = canary.touched(&bytes, initial_sp);
            assert!(!report.overflow);
            assert!(!report.data_at_risk);
            assert_eq!(report.min_stack_usage, 1024 - x as u32);
        }
        let report = canary.touched(&vec![0u8; 1024], initial_sp);
        assert!(!report.overflow);
        assert_eq!(report.min_stack_usage, 1024);
        assert_eq!(report.touched_address, Some(START));
    }
}

#[test]
fn overflow_puts_data_below_the_stack_at_risk() {
    let canary = install(4096, true, false);
    let mut bytes = painted(&canary);
    bytes[411] = 0;
    let report = canary.touched(&bytes, START + 4096);
    assert!(report.overflow);
    assert!(report.data_at_risk);

    let canary = install(4096, false, false);
    let report = canary.touched(&bytes, START + 4096);
    assert!(report.overflow);
    assert!(!report.data_at_risk);
}

#[test]
fn usage_counts_from_the_initial_stack_pointer() {
    // the program may start with its stack pointer below the end of the stack range
    let canary = install(4096, false, false);
    let mut bytes = painted(&canary);
    bytes[8] = 0;
    let report = canary.touched(&bytes, START + 4000);
    assert_eq!(report.min_stack_usage, 3992);
    let report = canary.touched(&bytes, START + 8);
    assert_eq!(report.min_stack_usage, 0);
    assert!(report.overflow);
}
