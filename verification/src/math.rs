//! Integer square root: the quadratic ("community") voting weight is the
//! floor of the square root of the linear token balance.

use vstd::prelude::*;
use vstd::arithmetic::div_mod::{lemma_fundamental_div_mod, lemma_mod_division_less_than_divisor};

verus! {

/// `r` is the integer floor of the square root of `n`.
pub open spec fn is_floor_sqrt(n: int, r: int) -> bool {
    0 <= r && r * r <= n && n < (r + 1) * (r + 1)
}

/// The integer floor of the square root of `n` (0 for negative `n`).
pub open spec fn floor_sqrt(n: int) -> int
    decreases n,
{
    if n <= 0 {
        0
    } else if (floor_sqrt(n - 1) + 1) * (floor_sqrt(n - 1) + 1) <= n {
        floor_sqrt(n - 1) + 1
    } else {
        floor_sqrt(n - 1)
    }
}

/// `floor_sqrt` satisfies the floor-square-root property.
pub proof fn lemma_floor_sqrt_is_floor_sqrt(n: int)
    requires
        n >= 0,
    ensures
        is_floor_sqrt(n, floor_sqrt(n)),
    decreases n,
{
    if n > 0 {
        lemma_floor_sqrt_is_floor_sqrt(n - 1);
        let r = floor_sqrt(n - 1);
        if (r + 1) * (r + 1) <= n {
            assert(n - 1 < (r + 1) * (r + 1));
            assert(n < (r + 2) * (r + 2)) by (nonlinear_arith)
                requires
                    n == (r + 1) * (r + 1),
                    r >= 0,
            ;
        }
    }
}

/// A number has exactly one floor square root.
pub proof fn lemma_floor_sqrt_unique(n: int, r1: int, r2: int)
    requires
        is_floor_sqrt(n, r1),
        is_floor_sqrt(n, r2),
    ensures
        r1 == r2,
{
    assert(r1 == r2) by (nonlinear_arith)
        requires
            0 <= r1,
            r1 * r1 <= n,
            n < (r1 + 1) * (r1 + 1),
            0 <= r2,
            r2 * r2 <= n,
            n < (r2 + 1) * (r2 + 1),
    ;
}

/// One Newton step from `x` keeps the iterate at least 1 and keeps the
/// square of its successor above `n`.
proof fn lemma_newton_step(n: int, x: int)
    requires
        1 <= x,
        x <= n,
    ensures
        1 <= (x + n / x) / 2,
        n < ((x + n / x) / 2 + 1) * ((x + n / x) / 2 + 1),
        n / x <= n,
{
    let q = n / x;
    let y = (x + q) / 2;
    lemma_fundamental_div_mod(n, x);
    lemma_mod_division_less_than_divisor(n, x);
    assert(q >= 1) by (nonlinear_arith)
        requires
            n == x * q + n % x,
            0 <= n % x < x,
            x <= n,
            1 <= x,
    ;
    assert(q <= n) by (nonlinear_arith)
        requires
            n == x * q + n % x,
            0 <= n % x,
            1 <= x,
            0 <= q,
    ;
    lemma_fundamental_div_mod(x + q, 2);
    lemma_mod_division_less_than_divisor(x + q, 2);
    assert(x + q == 2 * y + (x + q) % 2);
    assert(y >= 1);
    assert(x * (q + 1) > n) by (nonlinear_arith)
        requires
            n == x * q + n % x,
            n % x < x,
    ;
    assert((x + q + 1) * (x + q + 1) >= 4 * (x * (q + 1))) by (nonlinear_arith);
    assert((2 * y + 2) * (2 * y + 2) >= (x + q + 1) * (x + q + 1)) by (nonlinear_arith)
        requires
            2 * y + 2 >= x + q + 1,
            x + q + 1 >= 0,
    ;
    assert((y + 1) * (y + 1) > n) by (nonlinear_arith)
        requires
            (2 * y + 2) * (2 * y + 2) >= 4 * (x * (q + 1)),
            x * (q + 1) > n,
    ;
}

/// When the Newton iteration stops descending, the iterate is at most the
/// true square root.
proof fn lemma_newton_stop(n: int, x: int)
    requires
        1 <= x,
        x <= (x + n / x) / 2,
        0 <= n,
    ensures
        x * x <= n,
{
    let q = n / x;
    lemma_fundamental_div_mod(n, x);
    lemma_mod_division_less_than_divisor(n, x);
    lemma_fundamental_div_mod(x + q, 2);
    lemma_mod_division_less_than_divisor(x + q, 2);
    assert(2 * x <= x + q);
    assert(x * x <= n) by (nonlinear_arith)
        requires
            n == x * q + n % x,
            0 <= n % x,
            q >= x,
            x >= 1,
    ;
}

/// The integer floor of the square root of `n`, by Newton's method: the
/// iterate starts at `n`, descends monotonically, and stops at the root.
pub fn isqrt(n: u64) -> (r: u64)
    ensures
        r == floor_sqrt(n as int),
        is_floor_sqrt(n as int, r as int),
{
    proof {
        lemma_floor_sqrt_is_floor_sqrt(n as int);
    }
    if n == 0 {
        return 0;
    }
    let nw: u128 = n as u128;
    let mut x: u128 = nw;
    proof {
        assert(nw < (nw + 1) * (nw + 1)) by (nonlinear_arith)
            requires
                nw >= 1,
        ;
        lemma_fundamental_div_mod(nw as int, nw as int);
        lemma_mod_division_less_than_divisor(nw as int, nw as int);
        assert((nw as int) / (nw as int) == 1) by (nonlinear_arith)
            requires
                nw as int == (nw as int) * ((nw as int) / (nw as int)) + (nw as int) % (nw as int),
                0 <= (nw as int) % (nw as int),
                ((nw as int) % (nw as int)) < (nw as int),
                nw >= 1,
        ;
    }
    let mut y: u128 = (x + 1) / 2;
    while y < x
        invariant
            1 <= x <= nw,
            nw == n,
            1 <= nw,
            nw < (x + 1) * (x + 1),
            y == (x + nw as int / x as int) / 2,
        decreases x,
    {
        proof {
            lemma_newton_step(nw as int, x as int);
        }
        x = y;
        y = (x + nw / x) / 2;
    }
    proof {
        lemma_newton_stop(nw as int, x as int);
        assert(x <= 0xFFFF_FFFFu128) by (nonlinear_arith)
            requires
                x as int * x as int <= nw as int,
                nw <= 0xFFFF_FFFF_FFFF_FFFFu128,
                x >= 0,
        ;
        lemma_floor_sqrt_unique(n as int, x as int, floor_sqrt(n as int));
    }
    x as u64
}

} // verus!
