//! Integer square root, used for the magnitude of the Sobel gradient.

use vstd::prelude::*;

verus! {

/// The integer square root: the largest `r` with `r * r <= n`.
pub open spec fn isqrt_spec(n: nat) -> nat
    decreases n,
{
    if n == 0 {
        0
    } else {
        let p = isqrt_spec((n - 1) as nat);
        if (p + 1) * (p + 1) <= n {
            p + 1
        } else {
            p
        }
    }
}

/// `isqrt_spec(n)` brackets `n` between two consecutive squares.
pub proof fn lemma_isqrt_bounds(n: nat)
    ensures
        isqrt_spec(n) * isqrt_spec(n) <= n,
        n < (isqrt_spec(n) + 1) * (isqrt_spec(n) + 1),
    decreases n,
{
    if n > 0 {
        lemma_isqrt_bounds((n - 1) as nat);
        let p = isqrt_spec((n - 1) as nat);
        assert(p * p <= n - 1);
        assert(n - 1 < (p + 1) * (p + 1));
        if (p + 1) * (p + 1) <= n {
            assert(isqrt_spec(n) == p + 1);
            assert((p + 1) * (p + 1) < (p + 2) * (p + 2)) by (nonlinear_arith)
                requires
                    p >= 0,
            ;
            assert(n < (p + 2) * (p + 2));
        } else {
            assert(isqrt_spec(n) == p);
            assert(n < (p + 1) * (p + 1));
        }
    } else {
        assert(isqrt_spec(n) == 0);
        assert(n < (isqrt_spec(n) + 1) * (isqrt_spec(n) + 1)) by (nonlinear_arith)
            requires
                n == 0,
                isqrt_spec(n) == 0,
        ;
    }
}

/// Any `a` bracketing `n` between `a * a` and `(a + 1) * (a + 1)` is the
/// integer square root of `n`.
pub proof fn lemma_isqrt_unique(n: nat, a: nat)
    requires
        a * a <= n,
        n < (a + 1) * (a + 1),
    ensures
        a == isqrt_spec(n),
{
    let r = isqrt_spec(n);
    lemma_isqrt_bounds(n);
    assert(a == r) by (nonlinear_arith)
        requires
            a * a <= n,
            n < (a + 1) * (a + 1),
            r * r <= n,
            n < (r + 1) * (r + 1),
            a >= 0,
            r >= 0,
    ;
}

/// The integer square root of a 32-bit value.
pub fn isqrt(n: u32) -> (r: u32)
    ensures
        r == isqrt_spec(n as nat),
        r * r <= n < (r + 1) * (r + 1),
{
    let mut r: u32 = 0;
    loop
        invariant_except_break
            r as u64 * r as u64 <= n as u64,
            r <= 65535,
        ensures
            r as u64 * r as u64 <= n as u64,
            (r as u64 + 1) * (r as u64 + 1) > n as u64,
        decreases 65536 - r,
    {
        proof {
            assert((r as u64 + 1) * (r as u64 + 1) <= 0x1_0000_0000u64) by (nonlinear_arith)
                requires
                    r as u64 + 1 <= 65536,
            ;
        }
        let next: u64 = (r as u64 + 1) * (r as u64 + 1);
        if next <= n as u64 {
            proof {
                assert(r as u64 + 1 <= 65535) by (nonlinear_arith)
                    requires
                        (r as u64 + 1) * (r as u64 + 1) <= n as u64,
                        n as u64 <= 0xFFFF_FFFFu64,
                ;
            }
            r = r + 1;
        } else {
            break ;
        }
    }
    proof {
        lemma_isqrt_unique(n as nat, r as nat);
    }
    r
}

} // verus!
