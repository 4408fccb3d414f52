//! Detection of potential stack overflows on a microcontroller that is observed
//! through a debug probe.
//!
//! The unused memory below the stack is painted with a known byte before the
//! program runs and inspected after it has halted. This crate holds the rules
//! of that procedure: how large the painted region is, which machine code
//! paints it, in which order the probe is driven, and how the memory read back
//! is judged. Talking to the probe is left to the caller.

pub mod align;
pub mod paint;
pub mod painter;
pub mod measure;
pub mod canary;
