//! Integer arithmetic that stops at the limits of a type, truncating division and the integer
//! square root.

use vstd::prelude::*;

verus! {

/// The integer nearest to `x` that an `i128` can hold.
pub open spec fn clamp_i128(x: int) -> i128 {
    if x > i128::MAX {
        i128::MAX
    } else if x < i128::MIN {
        i128::MIN
    } else {
        x as i128
    }
}

/// The integer nearest to `x` that a `u64` can hold.
pub open spec fn clamp_u64(x: int) -> u64 {
    if x > u64::MAX {
        u64::MAX
    } else if x < 0 {
        0
    } else {
        x as u64
    }
}

/// The integer nearest to `x` that a `u32` can hold.
pub open spec fn clamp_u32(x: int) -> u32 {
    if x > u32::MAX {
        u32::MAX
    } else if x < 0 {
        0
    } else {
        x as u32
    }
}

/// The larger of two integers.
pub open spec fn max_int(a: int, b: int) -> int {
    if a >= b {
        a
    } else {
        b
    }
}

/// The smaller of two integers.
pub open spec fn min_int(a: int, b: int) -> int {
    if a <= b {
        a
    } else {
        b
    }
}

/// The quotient of `a` by a positive `b`, rounded toward zero.
pub open spec fn quotient(a: int, b: int) -> int {
    if a >= 0 {
        a / b
    } else {
        -((-a) / b)
    }
}

/// `current` less `amount`, but not less than zero.
pub open spec fn reduced(current: i128, amount: i128) -> i128 {
    max_int(clamp_i128(current - amount) as int, 0) as i128
}

/// A percentage of `n`, rounded up.
pub open spec fn percent_up(n: int, percentage: int) -> int {
    (n * percentage + 99) / 100
}

/// Whether `x` fits an `i128`.
pub open spec fn fits_i128(x: int) -> bool {
    i128::MIN <= x <= i128::MAX
}

/// Sum, held at the limits of `i128`.
pub fn sat_add(a: i128, b: i128) -> (r: i128)
    ensures
        r == clamp_i128(a + b),
{
    match a.checked_add(b) {
        Some(sum) => sum,
        None => if a >= 0 {
            i128::MAX
        } else {
            i128::MIN
        },
    }
}

/// Difference, held at the limits of `i128`.
pub fn sat_sub(a: i128, b: i128) -> (r: i128)
    ensures
        r == clamp_i128(a - b),
{
    match a.checked_sub(b) {
        Some(difference) => difference,
        None => if a >= 0 {
            i128::MAX
        } else {
            i128::MIN
        },
    }
}

/// Product, held at the limits of `i128`.
pub fn sat_mul(a: i128, b: i128) -> (r: i128)
    ensures
        r == clamp_i128(a * b),
{
    match a.checked_mul(b) {
        Some(product) => product,
        None => if (a >= 0) == (b >= 0) {
            assert(a * b >= 0) by (nonlinear_arith)
                requires
                    (a >= 0) == (b >= 0),
            ;
            i128::MAX
        } else {
            assert(a * b <= 0) by (nonlinear_arith)
                requires
                    (a >= 0) != (b >= 0),
            ;
            i128::MIN
        },
    }
}

/// Product, held at the largest `u64`.
pub fn sat_mul_u64(a: u64, b: u64) -> (r: u64)
    ensures
        r == clamp_u64(a * b),
{
    match a.checked_mul(b) {
        Some(product) => product,
        None => {
            assert(a * b >= 0) by (nonlinear_arith);
            u64::MAX
        },
    }
}

/// A count, held at the largest `u32`.
pub fn count_u32(n: u128) -> (r: u32)
    ensures
        r == clamp_u32(n as int),
{
    if n > u32::MAX as u128 {
        u32::MAX
    } else {
        n as u32
    }
}

/// `current` less `amount`, but not less than zero.
pub fn reduce(current: i128, amount: i128) -> (r: i128)
    ensures
        r == reduced(current, amount),
{
    let rest: i128 = sat_sub(current, amount);
    if rest >= 0 {
        rest
    } else {
        0
    }
}

/// Whether `a` plus `b` is more than `limit`.
pub fn sum_exceeds(a: i128, b: i128, limit: i128) -> (r: bool)
    ensures
        r == (a + b > limit),
{
    match a.checked_add(b) {
        Some(sum) => sum > limit,
        None => a >= 0,
    }
}

/// Quotient by a positive number, rounded toward zero.
pub fn divide(a: i128, b: i128) -> (r: i128)
    requires
        b > 0,
    ensures
        r == quotient(a as int, b as int),
{
    let q: i128 = a / b;
    q
}

/// `r` is the largest integer whose square is at most `n`.
pub open spec fn is_floor_sqrt(r: int, n: int) -> bool {
    &&& 0 <= r
    &&& r * r <= n
    &&& n < (r + 1) * (r + 1)
}

/// No other integer is the floor of the square root.
pub proof fn law_floor_sqrt_unique(r: int, q: int, n: int)
    requires
        is_floor_sqrt(r, n),
        is_floor_sqrt(q, n),
    ensures
        r == q,
{
    if r < q {
        assert((r + 1) * (r + 1) <= q * q) by (nonlinear_arith)
            requires
                0 <= r < q,
        ;
    } else if q < r {
        assert((q + 1) * (q + 1) <= r * r) by (nonlinear_arith)
            requires
                0 <= q < r,
        ;
    }
}

/// A step of Newton's method does not fall below the square root.
proof fn lemma_newton_step(v: int, x: int, q: int, y: int)
    requires
        v >= 0,
        x >= 1,
        q == v / x,
        y == (x + q) / 2,
    ensures
        v < (y + 1) * (y + 1),
        q >= 0,
        q * x <= v,
{
    assert(q >= 0 && q * x <= v && v < x * (q + 1)) by (nonlinear_arith)
        requires
            v >= 0,
            x >= 1,
            q == v / x,
    ;
    let s = x + q + 1;
    let t = 2 * y + 2;
    assert(t >= s);
    assert(t * t >= s * s) by (nonlinear_arith)
        requires
            t >= s >= 0,
    ;
    assert(s * s >= 4 * (x * (q + 1))) by (nonlinear_arith)
        requires
            s == x + q + 1,
    ;
    assert(t * t == 4 * ((y + 1) * (y + 1))) by (nonlinear_arith)
        requires
            t == 2 * y + 2,
    ;
}

/// The largest integer whose square is at most `v`.
pub fn floor_sqrt(v: u128) -> (r: u128)
    requires
        v <= i128::MAX,
    ensures
        is_floor_sqrt(r as int, v as int),
        r <= u64::MAX,
{
    if v == 0 {
        assert(is_floor_sqrt(0, 0));
        return 0;
    }
    let mut x: u128 = v;
    let mut y: u128 = (x + 1) / 2;
    proof {
        assert(v as int / v as int == 1) by (nonlinear_arith)
            requires
                v > 0,
        ;
        assert((v + 1) * (v + 1) > v) by (nonlinear_arith)
            requires
                v >= 1,
        ;
    }
    while y < x
        invariant
            1 <= v <= i128::MAX,
            1 <= x <= v,
            y == (x + v as int / x as int) / 2,
            v < (x + 1) * (x + 1),
        ensures
            1 <= x <= v,
            y >= x,
            y == (x + v as int / x as int) / 2,
            v < (x + 1) * (x + 1),
        decreases x,
    {
        proof {
            lemma_newton_step(v as int, x as int, v as int / x as int, y as int);
            if y == 0 {
                assert((y + 1) * (y + 1) == 1) by (nonlinear_arith)
                    requires
                        y == 0,
                ;
            }
        }
        x = y;
        assert(v as int / x as int <= v) by (nonlinear_arith)
            requires
                x >= 1,
                v >= 0,
        ;
        y = (x + v / x) / 2;
    }
    proof {
        let q = v as int / x as int;
        lemma_newton_step(v as int, x as int, q, y as int);
        assert(q >= x);
        assert(x * x <= q * x) by (nonlinear_arith)
            requires
                q >= x,
                x >= 1,
        ;
        if x > u64::MAX {
            assert(x * x >= 0x1_0000_0000_0000_0000 * 0x1_0000_0000_0000_0000) by (nonlinear_arith)
                requires
                    x >= 0x1_0000_0000_0000_0000,
            ;
        }
    }
    x
}

} // verus!
