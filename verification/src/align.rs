//! Rounding up to a multiple.

use vstd::prelude::*;
use vstd::arithmetic::div_mod::{lemma_fundamental_div_mod, lemma_mod_multiples_basic};

verus! {

/// `n` itself where it is a multiple of `k`, else the next multiple of `k` above `n`.
pub open spec fn round_up_spec(n: int, k: int) -> int
    recommends
        k > 0,
{
    if n % k == 0 {
        n
    } else {
        n + (k - n % k)
    }
}

/// Rounds `n` up to a multiple of `k`.
pub fn round_up(n: u32, k: u32) -> (r: u32)
    requires
        k > 0,
        round_up_spec(n as int, k as int) <= u32::MAX,
    ensures
        r == round_up_spec(n as int, k as int),
        r % k == 0,
        n <= r < n + k,
{
    proof {
        lemma_round_up_is_multiple(n as int, k as int);
        lemma_round_up_bounds(n as int, k as int);
    }
    let rem: u32 = n % k;
    if rem == 0 {
        n
    } else {
        n + (k - rem)
    }
}

/// What `round_up_spec` gives is a multiple of `k`.
pub proof fn lemma_round_up_is_multiple(n: int, k: int)
    requires
        k > 0,
    ensures
        round_up_spec(n, k) % k == 0,
{
    if n % k != 0 {
        lemma_fundamental_div_mod(n, k);
        assert(n + (k - n % k) == k * (n / k + 1)) by (nonlinear_arith)
            requires
                n == k * (n / k) + n % k,
        ;
        lemma_mod_multiples_basic(n / k + 1, k);
        assert(k * (n / k + 1) == (n / k + 1) * k) by (nonlinear_arith);
    }
}

/// What `round_up_spec` gives is not below `n`, and less than `k` above it.
pub proof fn lemma_round_up_bounds(n: int, k: int)
    requires
        k > 0,
    ensures
        n <= round_up_spec(n, k) < n + k,
{
}

/// `round_up_spec` gives the least multiple of `k` that is not below `n`.
pub proof fn lemma_round_up_is_least(n: int, k: int, m: int)
    requires
        k > 0,
        m >= n,
        m % k == 0,
    ensures
        round_up_spec(n, k) <= m,
{
    let r = round_up_spec(n, k);
    lemma_round_up_is_multiple(n, k);
    if m < r {
        // two multiples of `k` less than `k` apart are equal
        lemma_fundamental_div_mod(m, k);
        lemma_fundamental_div_mod(r, k);
        assert(false) by (nonlinear_arith)
            requires
                k > 0,
                m == k * (m / k),
                r == k * (r / k),
                m < r,
                r - m < k,
        ;
    }
}

/// Rounding up a value that was rounded up changes nothing.
pub proof fn lemma_round_up_idempotent(n: int, k: int)
    requires
        k > 0,
    ensures
        round_up_spec(round_up_spec(n, k), k) == round_up_spec(n, k),
{
    lemma_round_up_is_multiple(n, k);
}

} // verus!
