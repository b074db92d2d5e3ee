//! Quadratic vote weight: the credits of a balance are the floor of its square root.

use vstd::prelude::*;

verus! {

/// `r` is the floor of the square root of `n`.
pub open spec fn is_floor_sqrt(n: nat, r: nat) -> bool {
    r * r <= n < (r + 1) * (r + 1)
}

/// The floor of the square root of `n`: the one `r` with `r * r <= n < (r + 1) * (r + 1)`.
pub open spec fn floor_sqrt(n: nat) -> nat {
    choose|r: nat| is_floor_sqrt(n, r)
}

/// Every natural number has a floor square root.
pub proof fn lemma_floor_sqrt_exists(n: nat)
    ensures
        exists|r: nat| is_floor_sqrt(n, r),
    decreases n,
{
    if n == 0 {
        assert(is_floor_sqrt(0, 0)) by (nonlinear_arith);
    } else {
        let m = (n - 1) as nat;
        lemma_floor_sqrt_exists(m);
        let r = floor_sqrt(m);
        if (r + 1) * (r + 1) <= n {
            assert(n < (r + 2) * (r + 2)) by (nonlinear_arith)
                requires
                    n - 1 < (r + 1) * (r + 1),
            ;
            assert(is_floor_sqrt(n, r + 1));
        } else {
            assert(is_floor_sqrt(n, r));
        }
    }
}

/// No natural number has two floor square roots.
pub proof fn lemma_floor_sqrt_unique(n: nat, r1: nat, r2: nat)
    requires
        is_floor_sqrt(n, r1),
        is_floor_sqrt(n, r2),
    ensures
        r1 == r2,
{
    if r1 < r2 {
        assert((r1 + 1) * (r1 + 1) <= r2 * r2) by (nonlinear_arith)
            requires
                r1 + 1 <= r2,
        ;
    } else if r2 < r1 {
        assert((r2 + 1) * (r2 + 1) <= r1 * r1) by (nonlinear_arith)
            requires
                r2 + 1 <= r1,
        ;
    }
}

/// Whatever satisfies the defining inequality is the floor square root.
pub proof fn lemma_floor_sqrt_is(n: nat, r: nat)
    requires
        is_floor_sqrt(n, r),
    ensures
        floor_sqrt(n) == r,
{
    lemma_floor_sqrt_unique(n, floor_sqrt(n), r);
}

/// The floor square root of a 64-bit balance fits in 32 bits.
pub proof fn lemma_floor_sqrt_bound(n: nat)
    requires
        n <= u64::MAX,
    ensures
        is_floor_sqrt(n, floor_sqrt(n)),
        floor_sqrt(n) <= u32::MAX,
{
    lemma_floor_sqrt_exists(n);
    let r = floor_sqrt(n);
    if r > u32::MAX {
        assert(r * r >= 0x1_0000_0000_0000_0000) by (nonlinear_arith)
            requires
                r >= 0x1_0000_0000,
        ;
    }
}

/// A balance yields more credits only if it is larger: the weight never falls as the balance grows.
pub proof fn lemma_floor_sqrt_monotonic(a: nat, b: nat)
    requires
        a <= b,
    ensures
        floor_sqrt(a) <= floor_sqrt(b),
{
    lemma_floor_sqrt_exists(a);
    lemma_floor_sqrt_exists(b);
    let ra = floor_sqrt(a);
    let rb = floor_sqrt(b);
    if rb < ra {
        assert((rb + 1) * (rb + 1) <= ra * ra) by (nonlinear_arith)
            requires
                rb + 1 <= ra,
        ;
    }
}

/// The credits of a balance: the floor of its square root, which fits in 32 bits.
pub open spec fn credits_of(balance: u64) -> u32 {
    floor_sqrt(balance as nat) as u32
}

/// The credits of a balance are the floor of its square root, not a truncation of it.
pub proof fn lemma_credits_of(balance: u64)
    ensures
        credits_of(balance) == floor_sqrt(balance as nat),
        is_floor_sqrt(balance as nat, credits_of(balance) as nat),
{
    lemma_floor_sqrt_bound(balance as nat);
}

/// Converts a raw balance into voting credits, the floor of its square root.
/// A balance of zero yields zero credits. The computation is exact over the
/// whole 64-bit range.
pub fn credits(balance: u64) -> (c: u64)
    ensures
        c == credits_of(balance),
        c == floor_sqrt(balance as nat),
        c * c <= balance < (c + 1) * (c + 1),
{
    let mut lo: u64 = 0;
    let mut hi: u64 = 0x1_0000_0000;
    assert(0x1_0000_0000u64 * 0x1_0000_0000u64 == 0x1_0000_0000_0000_0000int);
    while hi - lo > 1
        invariant
            lo < hi <= 0x1_0000_0000,
            lo * lo <= balance < hi * hi,
        decreases hi - lo,
    {
        let mid: u64 = lo + (hi - lo) / 2;
        assert(mid * mid <= 0xFFFF_FFFE_0000_0001) by (nonlinear_arith)
            requires
                mid <= 0xFFFF_FFFF,
        ;
        if mid * mid <= balance {
            lo = mid;
        } else {
            hi = mid;
        }
    }
    proof {
        lemma_floor_sqrt_is(balance as nat, lo as nat);
    }
    lo
}

} // verus!
