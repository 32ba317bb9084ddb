use vstd::prelude::*;

verus! {

/// The integer square root: the largest `r` with `r * r <= n`.
pub open spec fn sqrt_floor(n: nat) -> nat
    decreases n,
{
    if n == 0 {
        0
    } else {
        let r = sqrt_floor((n - 1) as nat);
        if (r + 1) * (r + 1) <= n {
            r + 1
        } else {
            r
        }
    }
}

/// `sqrt_floor(n)` squares to at most `n`, and its successor squares past `n`.
pub proof fn lemma_sqrt_floor_bounds(n: nat)
    ensures
        sqrt_floor(n) * sqrt_floor(n) <= n,
        n < (sqrt_floor(n) + 1) * (sqrt_floor(n) + 1),
    decreases n,
{
    if n == 0 {
        assert(sqrt_floor(0) == 0);
        assert((0 + 1) * (0 + 1) == 1) by (nonlinear_arith);
    } else {
        lemma_sqrt_floor_bounds((n - 1) as nat);
        let r = sqrt_floor((n - 1) as nat);
        let s = sqrt_floor(n);
        if (r + 1) * (r + 1) <= n {
            assert(s == r + 1);
            assert((s + 1) * (s + 1) > s * s) by (nonlinear_arith);
            assert(n - 1 < s * s);
        } else {
            assert(s == r);
            assert(n < (s + 1) * (s + 1));
        }
    }
}

/// Only one number lies between the two bounds, so they pin `sqrt_floor(n)`.
pub proof fn lemma_sqrt_floor_unique(n: nat, r: nat)
    requires
        r * r <= n,
        n < (r + 1) * (r + 1),
    ensures
        r == sqrt_floor(n),
{
    lemma_sqrt_floor_bounds(n);
    let s = sqrt_floor(n);
    if r < s {
        assert((r + 1) * (r + 1) <= s * s) by (nonlinear_arith)
            requires
                r + 1 <= s,
        ;
    } else if s < r {
        assert((s + 1) * (s + 1) <= r * r) by (nonlinear_arith)
            requires
                s + 1 <= r,
        ;
    }
}

/// Computes the integer square root by bisection.
pub fn isqrt(n: u64) -> (r: u64)
    ensures
        r == sqrt_floor(n as nat),
        r < 0x1_0000_0000,
{
    let mut lo: u64 = 0;
    let mut hi: u64 = 0x1_0000_0000;
    assert(0x1_0000_0000u64 * 0x1_0000_0000u64 > n) by (nonlinear_arith)
        requires
            n <= u64::MAX,
    ;
    while hi - lo > 1
        invariant
            lo < hi <= 0x1_0000_0000,
            lo * lo <= n,
            n < hi * hi,
        decreases hi - lo,
    {
        let mid: u64 = lo + (hi - lo) / 2;
        assert(mid * mid <= 0xffff_ffff * 0xffff_ffff) by (nonlinear_arith)
            requires
                mid <= 0xffff_ffff,
        ;
        if mid * mid <= n {
            lo = mid;
        } else {
            hi = mid;
        }
    }
    proof {
        lemma_sqrt_floor_unique(n as nat, lo as nat);
    }
    lo
}

/// The integer nearest to the square root of `n`.
pub open spec fn sqrt_round(n: nat) -> nat {
    (sqrt_floor(4 * n) + 1) / 2
}

/// `sqrt_round(n)` squares to within itself of `n`, which is to say that it
/// lies within a half of the square root; and it is the integer square
/// root or the one above.
pub proof fn lemma_sqrt_round_bounds(n: nat)
    ensures
        sqrt_round(n) * sqrt_round(n) <= n + sqrt_round(n),
        n <= sqrt_round(n) * sqrt_round(n) + sqrt_round(n),
        sqrt_floor(n) <= sqrt_round(n) <= sqrt_floor(n) + 1,
{
    let m = sqrt_floor(4 * n);
    let r = sqrt_round(n);
    let f = sqrt_floor(n);
    lemma_sqrt_floor_bounds(4 * n);
    lemma_sqrt_floor_bounds(n);
    assert(m == 2 * r || m == 2 * r - 1);
    if m == 2 * r {
        assert(m * m == 4 * (r * r)) by (nonlinear_arith)
            requires
                m == 2 * r,
        ;
        assert((m + 1) * (m + 1) == 4 * (r * r) + 4 * r + 1) by (nonlinear_arith)
            requires
                m == 2 * r,
        ;
    } else {
        assert(m * m == 4 * (r * r) - 4 * r + 1) by (nonlinear_arith)
            requires
                m == 2 * r - 1,
        ;
        assert((m + 1) * (m + 1) == 4 * (r * r)) by (nonlinear_arith)
            requires
                m == 2 * r - 1,
        ;
    }
    if r < f {
        assert((r + 1) * (r + 1) <= f * f) by (nonlinear_arith)
            requires
                r + 1 <= f,
        ;
        assert((r + 1) * (r + 1) == r * r + 2 * r + 1) by (nonlinear_arith);
    }
    if r > f + 1 {
        assert((f + 1) * (f + 1) <= (r - 1) * (r - 1)) by (nonlinear_arith)
            requires
                f + 1 <= r - 1,
                0 <= f,
        ;
        assert((r - 1) * (r - 1) == r * r - 2 * r + 1) by (nonlinear_arith);
    }
}

/// Computes the integer nearest to the square root.
pub fn isqrt_round(n: u64) -> (r: u64)
    requires
        4 * n <= u64::MAX,
    ensures
        r == sqrt_round(n as nat),
        r <= 0x8000_0000,
{
    (isqrt(4 * n) + 1) / 2
}

} // verus!
