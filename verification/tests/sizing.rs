use stack_canary::align::round_up;
use stack_canary::canary::{canary_size, Canary, StackInfo, MAX_DETECTION_SIZE};
use stack_canary::paint::RegionError;

fn stack(start: u32, end: u32) -> Option<StackInfo> {
    Some(StackInfo { start, end, data_below_stack: false })
}

#[test]
fn round_up_keeps_multiples() {
    assert_eq!(round_up(0, 4), 0);
    assert_eq!(round_up(4, 4), 4);
    assert_eq!(round_up(1024, 4), 1024);
    assert_eq!(round_up(9, 3), 9);
    assert_eq!(round_up(17, 1), 17);
}

#[test]
fn round_up_goes_to_next_multiple() {
    assert_eq!(round_up(1, 4), 4);
    assert_eq!(round_up(409, 4), 412);
    assert_eq!(round_up(410, 4), 412);
    assert_eq!(round_up(411, 4), 412);
    assert_eq!(round_up(413, 4), 416);
}

#[test]
fn round_up_works_for_any_alignment() {
    assert_eq!(round_up(7, 3), 9);
    assert_eq!(round_up(1, 3), 3);
    assert_eq!(round_up(10, 8), 16);
    assert_eq!(round_up(1, 1000), 1000);
    assert_eq!(round_up(1001, 1000), 2000);
}

#[test]
fn round_up_reaches_the_largest_multiple() {
    assert_eq!(round_up(u32::MAX, 1), u32::MAX);
    assert_eq!(round_up(u32::MAX - 2, 5), u32::MAX);
    assert_eq!(round_up(u32::MAX - 6, 4), u32::MAX - 3);
}

#[test]
fn round_up_is_an_idempotent_upper_bound() {
    for k in 1..=17u32 {
        for n in 0..=200u32 {
            let r = round_up(n, k);
            assert_eq!(r % k, 0, "round_up({n}, {k})");
            assert!(r >= n, "round_up({n}, {k})");
            assert!(r - n < k, "round_up({n}, {k})");
            assert_eq!(round_up(r, k), r, "round_up({n}, {k})");
        }
    }
}

#[test]
fn detection_size_is_a_tenth_rounded_up() {
    assert_eq!(canary_size(4096, false), 412);
    assert_eq!(canary_size(4000, false), 400);
    assert_eq!(canary_size(250, false), 28);
    assert_eq!(canary_size(10, false), 4);
    assert_eq!(canary_size(9, false), 0);
    assert_eq!(canary_size(0, false), 0);
}

#[test]
fn detection_size_is_capped() {
    assert_eq!(MAX_DETECTION_SIZE, 1024);
    assert_eq!(canary_size(10_230, false), 1024);
    assert_eq!(canary_size(10_240, false), 1024);
    assert_eq!(canary_size(10_250, false), 1024);
    assert_eq!(canary_size(0x4_0000, false), 1024);
    assert_eq!(canary_size(u32::MAX, false), 1024);
}

#[test]
fn detection_size_is_bounded_and_aligned() {
    let mut stack_available: u32 = 0;
    while stack_available < 20_000 {
        let size = canary_size(stack_available, false);
        assert!(size <= 1024, "{stack_available}");
        assert_eq!(size % 4, 0, "{stack_available}");
        assert!(size <= stack_available, "{stack_available}");
        stack_available += 1;
    }
}

#[test]
fn measurement_size_is_the_whole_stack() {
    assert_eq!(canary_size(2048, true), 2048);
    assert_eq!(canary_size(0, true), 0);
    assert_eq!(canary_size(1001, true), 1001);
    assert_eq!(canary_size(u32::MAX, true), u32::MAX);
}

#[test]
fn no_canary_without_stack_range() {
    assert!(matches!(Canary::install(None, false, false), Ok(None)));
    assert!(matches!(Canary::install(None, false, true), Ok(None)));
    assert!(matches!(Canary::install(None, true, false), Ok(None)));
}

#[test]
fn no_canary_when_heap_is_used() {
    assert!(matches!(Canary::install(stack(0x2000_0000, 0x2000_1000), true, false), Ok(None)));
    assert!(matches!(Canary::install(stack(0x2000_0000, 0x2000_1000), true, true), Ok(None)));
    // not even the region is looked at
    assert!(matches!(Canary::install(stack(0x2000_0001, 0x2000_0003), true, true), Ok(None)));
}

#[test]
fn install_for_detection() {
    let info = StackInfo { start: 0x2000_0400, end: 0x2000_1400, data_below_stack: true };
    let canary = Canary::install(Some(info), false, false).unwrap().unwrap();
    assert_eq!(canary.address(), 0x2000_0400);
    assert_eq!(canary.size(), 412);
    assert_eq!(canary.stack_available(), 4096);
    assert!(canary.data_below_stack());
    assert!(!canary.measure_stack());
}

#[test]
fn install_for_measurement() {
    let canary = Canary::install(stack(0x2000_0000, 0x2000_0800), false, true).unwrap().unwrap();
    assert_eq!(canary.address(), 0x2000_0000);
    assert_eq!(canary.size(), 2048);
    assert_eq!(canary.stack_available(), 2048);
    assert!(!canary.data_below_stack());
    assert!(canary.measure_stack());
}

#[test]
fn install_at_the_top_of_the_address_space() {
    let canary = Canary::install(stack(0xFFFF_F000, 0xFFFF_FFFC), false, true).unwrap().unwrap();
    assert_eq!(canary.address(), 0xFFFF_F000);
    assert_eq!(canary.size(), 0xFFC);
}

#[test]
fn install_rejects_a_region_smaller_than_the_subroutine() {
    // a tenth of 249 bytes is 24, which is less than the 28 bytes of the subroutine
    let placed = Canary::install(stack(0x2000_0000, 0x2000_0000 + 249), false, false);
    assert_eq!(placed.err(), Some(RegionError::TooSmall));
    let placed = Canary::install(stack(0x2000_0000, 0x2000_0000 + 250), false, false);
    assert_eq!(placed.unwrap().unwrap().size(), 28);

    let placed = Canary::install(stack(0x2000_0000, 0x2000_0000 + 24), false, true);
    assert_eq!(placed.err(), Some(RegionError::TooSmall));
    let placed = Canary::install(stack(0x2000_0000, 0x2000_0000), false, true);
    assert_eq!(placed.err(), Some(RegionError::TooSmall));
}

#[test]
fn install_rejects_an_unaligned_start() {
    let placed = Canary::install(stack(0x2000_0002, 0x2000_1002), false, false);
    assert_eq!(placed.err(), Some(RegionError::UnalignedStart));
    let placed = Canary::install(stack(0x2000_0001, 0x2000_1001), false, true);
    assert_eq!(placed.err(), Some(RegionError::UnalignedStart));
}

#[test]
fn install_rejects_an_unaligned_size() {
    let placed = Canary::install(stack(0x2000_0000, 0x2000_0000 + 1002), false, true);
    assert_eq!(placed.err(), Some(RegionError::UnalignedSize));
    // the same stack can be watched for an overflow: a tenth of it is rounded up
    let placed = Canary::install(stack(0x2000_0000, 0x2000_0000 + 1002), false, false);
    assert_eq!(placed.unwrap().unwrap().size(), 100);
}

#[test]
fn install_names_the_first_fault() {
    // too small and unaligned
    let placed = Canary::install(stack(0x2000_0001, 0x2000_0001 + 10), false, true);
    assert_eq!(placed.err(), Some(RegionError::TooSmall));
    // start and size unaligned
    let placed = Canary::install(stack(0x2000_0001, 0x2000_0001 + 1002), false, true);
    assert_eq!(placed.err(), Some(RegionError::UnalignedStart));
}
