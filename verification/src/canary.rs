//! The stack canary: where it is placed, and what its state says once the
//! program has halted.
//!
//! ``` text
//! +--------+ -> initial stack pointer / end of the stack range
//! |        |
//! | stack  | (grows downwards)
//! |        |
//! +--------+
//! |        |
//! |        |
//! +--------+
//! | canary |
//! +--------+ -> start of the stack range
//! |        |
//! | static | (variables, fixed size)
//! |        |
//! +--------+ -> lowest RAM address
//! ```
//!
//! The whole canary is set to `CANARY_VALUE` before the target program is started. When the
//! program ends, the canary is read back. If it was touched (any of its bytes differs from
//! `CANARY_VALUE`), that is considered a *potential* stack overflow.

use vstd::prelude::*;
use crate::align::{round_up, round_up_spec};
use crate::measure::{intact, lemma_single_touch, measure_stack, measure_stack_spec};
use crate::paint::{check_region, region_error, RegionError, CANARY_VALUE};
use crate::painter::{paint_stack, PaintState, Painter};

verus! {

/// The largest canary that is placed to detect an overflow, in bytes.
pub const MAX_DETECTION_SIZE: u32 = 1024;

/// The unused stack memory of a program: the addresses from `start` up to `end`.
#[derive(Clone, Copy, Debug, PartialEq, Eq)]
pub struct StackInfo {
    pub start: u32,
    pub end: u32,
    /// Static data sits directly below `start`.
    pub data_below_stack: bool,
}

/// What a `Canary` stands for.
pub struct CanaryPlan {
    /// Start of the painted region.
    pub address: nat,
    /// Number of bytes painted.
    pub size: nat,
    /// Unused stack memory when the canary was placed, in bytes.
    pub stack_available: nat,
    /// Static data sits directly below the stack.
    pub data_below_stack: bool,
    /// The canary serves to measure stack usage, not to detect an overflow.
    pub measure_stack: bool,
}

impl CanaryPlan {
    /// The region is one that the painter can paint, and it lies within the unused stack
    /// memory, which lies within the address space.
    pub open spec fn wf(self) -> bool {
        &&& region_error(self.address as int, self.size as int) is None
        &&& self.size <= self.stack_available
        &&& self.address + self.stack_available <= u32::MAX
    }
}

/// (Location of) the stack canary.
#[derive(Clone, Copy, Debug)]
pub struct Canary {
    address: u32,
    size: usize,
    stack_available: u32,
    data_below_stack: bool,
    measure_stack: bool,
}

/// What the canary showed when it was read back.
#[derive(Clone, Copy, Debug, PartialEq, Eq)]
pub struct Report {
    /// The lowest address that no longer holds the canary value.
    pub touched_address: Option<u32>,
    /// The least that the program has used of its stack, in bytes: the distance from the
    /// initial stack pointer down to `touched_address`, and 0 where the canary is intact.
    pub min_stack_usage: u32,
    /// Unused stack memory when the canary was placed, in bytes.
    pub stack_available: u32,
    /// The stack may have overflowed.
    pub overflow: bool,
    /// The stack may have overflowed into static data.
    pub data_at_risk: bool,
}

/// The size of the canary for `stack_available` bytes of unused stack.
///
/// To measure stack usage the whole stack is painted. To detect an overflow, a tenth of it
/// is, rounded up to a multiple of 4, and no more than `MAX_DETECTION_SIZE`: painting a lot
/// of memory is slow.
pub open spec fn canary_size_spec(stack_available: int, measure_stack: bool) -> int {
    if measure_stack {
        stack_available
    } else {
        let tenth = stack_available / 10;
        round_up_spec(if tenth < MAX_DETECTION_SIZE { tenth } else { MAX_DETECTION_SIZE as int }, 4)
    }
}

/// The least stack usage that a canary shows which was touched at `touched`.
pub open spec fn min_stack_usage_spec(touched: Option<int>, initial_stack_pointer: int) -> int {
    match touched {
        Some(address) => initial_stack_pointer - address,
        None => 0,
    }
}

/// Whether a canary that was touched at `touched` shows a potential overflow.
pub open spec fn overflow_spec(measure_stack: bool, touched: Option<int>) -> bool {
    !measure_stack && touched is Some
}

/// What `Canary::install` decides.
pub open spec fn install_spec(
    stack_info: Option<StackInfo>,
    program_uses_heap: bool,
    measure_stack: bool,
) -> Result<Option<CanaryPlan>, RegionError> {
    match stack_info {
        None => Ok(None),
        Some(info) => if program_uses_heap {
            Ok(None)
        } else {
            let stack_available = info.end - info.start;
            let size = canary_size_spec(stack_available, measure_stack);
            match region_error(info.start as int, size) {
                Some(error) => Err(error),
                None => Ok(
                    Some(
                        CanaryPlan {
                            address: info.start as nat,
                            size: size as nat,
                            stack_available: stack_available as nat,
                            data_below_stack: info.data_below_stack,
                            measure_stack,
                        },
                    ),
                ),
            }
        },
    }
}

/// What stands behind the canary, if one was placed.
pub open spec fn plan_of(placed: Result<Option<Canary>, RegionError>) -> Result<
    Option<CanaryPlan>,
    RegionError,
> {
    match placed {
        Ok(Some(canary)) => Ok(Some(canary@)),
        Ok(None) => Ok(None),
        Err(error) => Err(error),
    }
}

/// A canary that is placed to detect an overflow is no larger than `MAX_DETECTION_SIZE`, its
/// size is a multiple of 4, and it fits into the unused stack.
pub proof fn lemma_detection_size(stack_available: int)
    requires
        0 <= stack_available,
    ensures
        0 <= canary_size_spec(stack_available, false) <= MAX_DETECTION_SIZE,
        canary_size_spec(stack_available, false) % 4 == 0,
        canary_size_spec(stack_available, false) <= stack_available,
{
}

/// A canary that is placed to measure stack usage covers the unused stack.
pub proof fn lemma_measurement_size(stack_available: int)
    ensures
        canary_size_spec(stack_available, true) == stack_available,
{
}

/// Where a canary is placed, its region can be painted and lies within the unused stack.
pub proof fn lemma_installed_is_wf(
    stack_info: Option<StackInfo>,
    program_uses_heap: bool,
    measure_stack: bool,
)
    requires
        stack_info matches Some(info) ==> info.start <= info.end,
    ensures
        install_spec(stack_info, program_uses_heap, measure_stack) matches Ok(Some(plan))
            ==> plan.wf(),
{
    if let Some(info) = stack_info {
        lemma_detection_size(info.end - info.start);
    }
}

/// No canary is placed where the stack range is not known or the program uses a heap, and
/// only there.
pub proof fn lemma_no_canary(
    stack_info: Option<StackInfo>,
    program_uses_heap: bool,
    measure_stack: bool,
)
    ensures
        install_spec(stack_info, program_uses_heap, measure_stack) == Ok::<
            Option<CanaryPlan>,
            RegionError,
        >(None) <==> stack_info is None || program_uses_heap,
{
}

/// A region that holds the canary value everywhere but at offset `x` was touched at
/// `start + x`, and shows a stack usage of the distance from there up to the initial stack
/// pointer.
pub proof fn lemma_touched_once(start: int, bytes: Seq<u8>, x: int, initial_stack_pointer: int)
    requires
        0 <= x < bytes.len(),
        bytes[x] != CANARY_VALUE,
        forall|i: int| 0 <= i < bytes.len() && i != x ==> bytes[i] == CANARY_VALUE,
    ensures
        measure_stack_spec(start, bytes) == Some(start + x),
        min_stack_usage_spec(measure_stack_spec(start, bytes), initial_stack_pointer)
            == initial_stack_pointer - (start + x),
{
    lemma_single_touch(start, bytes, x);
}

/// A region that holds the canary value everywhere shows no overflow and no stack usage.
pub proof fn lemma_intact(start: int, bytes: Seq<u8>, measure_stack: bool, initial_stack_pointer: int)
    requires
        intact(bytes),
    ensures
        measure_stack_spec(start, bytes) is None,
        !overflow_spec(measure_stack, measure_stack_spec(start, bytes)),
        min_stack_usage_spec(measure_stack_spec(start, bytes), initial_stack_pointer) == 0,
{
}

/// While stack usage is measured, no overflow is reported, whatever was found.
pub proof fn lemma_measuring_reports_no_overflow(touched: Option<int>)
    ensures
        !overflow_spec(true, touched),
{
}

/// Computes the size of the canary for `stack_available` bytes of unused stack.
pub fn canary_size(stack_available: u32, measure_stack: bool) -> (size: u32)
    ensures
        size == canary_size_spec(stack_available as int, measure_stack),
        size <= stack_available,
        !measure_stack ==> size <= MAX_DETECTION_SIZE && size % 4 == 0,
{
    if measure_stack {
        // When measuring stack consumption, the whole stack has to be painted.
        stack_available
    } else {
        // More than 90% stack usage counts as a potential stack overflow.
        let tenth: u32 = stack_available / 10;
        round_up(MAX_DETECTION_SIZE.min(tenth), 4)
    }
}

impl View for Canary {
    type V = CanaryPlan;

    closed spec fn view(&self) -> CanaryPlan {
        CanaryPlan {
            address: self.address as nat,
            size: self.size as nat,
            stack_available: self.stack_available as nat,
            data_below_stack: self.data_below_stack,
            measure_stack: self.measure_stack,
        }
    }
}

impl Canary {
    #[verifier::type_invariant]
    spec fn inv(self) -> bool {
        self@.wf()
    }

    /// Decides if and where to place the stack canary.
    ///
    /// None is placed where the stack range is not known, nor where the program uses a heap:
    /// the heap may grow into the same memory.
    pub fn install(
        stack_info: Option<StackInfo>,
        program_uses_heap: bool,
        measure_stack: bool,
    ) -> (placed: Result<Option<Canary>, RegionError>)
        requires
            stack_info matches Some(info) ==> info.start <= info.end,
        ensures
            plan_of(placed) == install_spec(stack_info, program_uses_heap, measure_stack),
            placed matches Ok(Some(canary)) ==> canary@.wf(),
    {
        let info = match stack_info {
            Some(info) => info,
            None => {
                return Ok(None);
            },
        };

        if program_uses_heap {
            return Ok(None);
        }

        let stack_start: u32 = info.start;
        let stack_available: u32 = info.end - stack_start;
        let size: u32 = canary_size(stack_available, measure_stack);

        match check_region(stack_start, size) {
            Err(error) => Err(error),
            Ok(()) => Ok(
                Some(
                    Canary {
                        address: stack_start,
                        size: size as usize,
                        stack_available,
                        data_below_stack: info.data_below_stack,
                        measure_stack,
                    },
                ),
            ),
        }
    }

    /// Judges the canary by `bytes`, which the painted region holds now that the program has
    /// halted, and by the stack pointer that the program started with.
    ///
    /// When stack usage is measured, no overflow is reported, whatever was found.
    pub fn touched(self, bytes: &[u8], initial_stack_pointer: u32) -> (report: Report)
        requires
            bytes@.len() == self@.size,
            measure_stack_spec(self@.address as int, bytes@) matches Some(address) ==> address
                <= initial_stack_pointer,
        ensures
            match report.touched_address {
                Some(address) => measure_stack_spec(self@.address as int, bytes@) == Some(
                    address as int,
                ),
                None => intact(bytes@),
            },
            report.min_stack_usage == min_stack_usage_spec(
                measure_stack_spec(self@.address as int, bytes@),
                initial_stack_pointer as int,
            ),
            report.stack_available == self@.stack_available,
            report.overflow == overflow_spec(
                self@.measure_stack,
                measure_stack_spec(self@.address as int, bytes@),
            ),
            report.data_at_risk == (report.overflow && self@.data_below_stack),
            self@.measure_stack ==> !report.overflow,
            intact(bytes@) ==> !report.overflow && report.min_stack_usage == 0,
    {
        proof {
            use_type_invariant(&self);
        }
        let touched_address = measure_stack(self.address, bytes);

        let min_stack_usage: u32 = match touched_address {
            Some(address) => initial_stack_pointer - address,
            None => 0,
        };

        // No overflow is looked for while stack usage is measured.
        let overflow = !self.measure_stack && touched_address.is_some();

        Report {
            touched_address,
            min_stack_usage,
            stack_available: self.stack_available,
            overflow,
            data_at_risk: overflow && self.data_below_stack,
        }
    }

    /// Begins to paint the canary.
    pub fn painter(&self) -> (painter: Painter)
        ensures
            painter@ == PaintState::initial(self@.address, self@.size),
            painter@.wf(),
    {
        proof {
            use_type_invariant(self);
        }
        paint_stack(self.address, self.size as u32)
    }

    /// Start of the painted region.
    pub fn address(&self) -> (address: u32)
        ensures
            address == self@.address,
            self@.wf(),
    {
        proof {
            use_type_invariant(self);
        }
        self.address
    }

    /// Number of bytes painted.
    pub fn size(&self) -> (size: usize)
        ensures
            size == self@.size,
            self@.wf(),
    {
        proof {
            use_type_invariant(self);
        }
        self.size
    }

    /// Unused stack memory when the canary was placed, in bytes.
    pub fn stack_available(&self) -> (stack_available: u32)
        ensures
            stack_available == self@.stack_available,
            self@.wf(),
    {
        proof {
            use_type_invariant(self);
        }
        self.stack_available
    }

    /// Whether static data sits directly below the stack.
    pub fn data_below_stack(&self) -> (data_below_stack: bool)
        ensures
            data_below_stack == self@.data_below_stack,
    {
        self.data_below_stack
    }

    /// Whether the canary serves to measure stack usage.
    pub fn measure_stack(&self) -> (measure_stack: bool)
        ensures
            measure_stack == self@.measure_stack,
    {
        self.measure_stack
    }
}

} // verus!
