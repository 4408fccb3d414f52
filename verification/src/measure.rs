//! The measurer: how far the stack grew into a painted region, read off the
//! bytes that the region holds once the program has halted.
//!
//! The stack grows downwards, so the lowest address that no longer holds the
//! canary value is the deepest point that the stack reached.

use vstd::prelude::*;
use crate::paint::CANARY_VALUE;

verus! {

/// Every byte of `bytes` holds the canary value.
pub open spec fn intact(bytes: Seq<u8>) -> bool {
    forall|i: int| 0 <= i < bytes.len() ==> bytes[i] == CANARY_VALUE
}

/// `i` is the lowest index at which `bytes` does not hold the canary value.
pub open spec fn is_first_touched(bytes: Seq<u8>, i: int) -> bool {
    &&& 0 <= i < bytes.len()
    &&& bytes[i] != CANARY_VALUE
    &&& forall|j: int| 0 <= j < i ==> bytes[j] == CANARY_VALUE
}

/// The lowest index at which `bytes` does not hold the canary value, if there is one.
pub open spec fn first_touched(bytes: Seq<u8>) -> Option<int> {
    if intact(bytes) {
        None
    } else {
        Some(choose|i: int| is_first_touched(bytes, i))
    }
}

/// The lowest address that does not hold the canary value, in a region that starts at `start`
/// and holds `bytes`; `None` where the whole region holds it.
pub open spec fn measure_stack_spec(start: int, bytes: Seq<u8>) -> Option<int> {
    match first_touched(bytes) {
        Some(i) => Some(start + i),
        None => None,
    }
}

/// There is at most one lowest touched index, and `first_touched` gives it.
pub proof fn lemma_first_touched_unique(bytes: Seq<u8>, i: int)
    requires
        is_first_touched(bytes, i),
    ensures
        first_touched(bytes) == Some(i),
{
    assert(!intact(bytes));
    let j = choose|j: int| is_first_touched(bytes, j);
    assert(is_first_touched(bytes, j));
    assert(j == i) by {
        if j < i {
            assert(bytes[j] == CANARY_VALUE);
        } else if i < j {
            assert(bytes[i] == CANARY_VALUE);
        }
    }
}

/// A region that was touched has a lowest touched index.
pub proof fn lemma_first_touched_exists(bytes: Seq<u8>)
    requires
        !intact(bytes),
    ensures
        first_touched(bytes) matches Some(i) && is_first_touched(bytes, i),
    decreases bytes.len(),
{
    let k = choose|k: int| 0 <= k < bytes.len() && bytes[k] != CANARY_VALUE;
    let head = bytes.take(k);
    if intact(head) {
        assert forall|j: int| 0 <= j < k implies bytes[j] == CANARY_VALUE by {
            assert(head[j] == bytes[j]);
        }
        lemma_first_touched_unique(bytes, k);
    } else {
        lemma_first_touched_exists(head);
        let i = first_touched(head)->Some_0;
        assert(bytes[i] == head[i]);
        assert forall|j: int| 0 <= j < i implies bytes[j] == CANARY_VALUE by {
            assert(head[j] == bytes[j]);
        }
        lemma_first_touched_unique(bytes, i);
    }
}

/// A region that holds the canary value everywhere but at offset `x` was touched at
/// `start + x`.
pub proof fn lemma_single_touch(start: int, bytes: Seq<u8>, x: int)
    requires
        0 <= x < bytes.len(),
        bytes[x] != CANARY_VALUE,
        forall|i: int| 0 <= i < bytes.len() && i != x ==> bytes[i] == CANARY_VALUE,
    ensures
        measure_stack_spec(start, bytes) == Some(start + x),
{
    lemma_first_touched_unique(bytes, x);
}

/// Finds the lowest address which does not contain `CANARY_VALUE` anymore.
///
/// `bytes` is what the target holds from `start` on, as read back once the program has halted.
pub fn measure_stack(start: u32, bytes: &[u8]) -> (touched: Option<u32>)
    requires
        start + bytes@.len() <= u32::MAX + 1,
    ensures
        match touched {
            Some(address) => measure_stack_spec(start as int, bytes@) == Some(address as int),
            None => measure_stack_spec(start as int, bytes@) is None,
        },
{
    let mut i: usize = 0;
    while i < bytes.len()
        invariant
            i <= bytes@.len(),
            start + bytes@.len() <= u32::MAX + 1,
            forall|j: int| 0 <= j < i ==> bytes@[j] == CANARY_VALUE,
        decreases bytes@.len() - i,
    {
        if bytes[i] != CANARY_VALUE {
            proof {
                lemma_first_touched_unique(bytes@, i as int);
            }
            return Some(start + i as u32);
        }
        i += 1;
    }
    None
}

} // verus!
