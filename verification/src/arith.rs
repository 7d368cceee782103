use vstd::prelude::*;

verus! {

/// `v` clamped into the range of `i32`, as the saturating operations give it.
pub open spec fn sat(v: int) -> i32 {
    if v < i32::MIN {
        i32::MIN
    } else if v > i32::MAX {
        i32::MAX
    } else {
        v as i32
    }
}

/// `i32::saturating_add`.
pub fn sat_add(a: i32, b: i32) -> (r: i32)
    ensures
        r == sat(a + b),
{
    let v: i64 = a as i64 + b as i64;
    if v < i32::MIN as i64 {
        i32::MIN
    } else if v > i32::MAX as i64 {
        i32::MAX
    } else {
        v as i32
    }
}

/// `i32::saturating_sub`.
pub fn sat_sub(a: i32, b: i32) -> (r: i32)
    ensures
        r == sat(a - b),
{
    let v: i64 = a as i64 - b as i64;
    if v < i32::MIN as i64 {
        i32::MIN
    } else if v > i32::MAX as i64 {
        i32::MAX
    } else {
        v as i32
    }
}

/// `i32::saturating_mul`.
pub fn sat_mul(a: i32, b: i32) -> (r: i32)
    ensures
        r == sat(a * b),
{
    proof {
        assert(-2147483648 * 2147483647 <= a * b <= 2147483648 * 2147483648) by (nonlinear_arith)
            requires
                -2147483648 <= a <= 2147483647,
                -2147483648 <= b <= 2147483647,
        ;
    }
    let v: i64 = a as i64 * b as i64;
    if v < i32::MIN as i64 {
        i32::MIN
    } else if v > i32::MAX as i64 {
        i32::MAX
    } else {
        v as i32
    }
}

/// Division rounded toward zero, as Rust's `/` on integers gives it.
pub open spec fn div_trunc(a: int, b: int) -> int {
    if a >= 0 {
        a / b
    } else {
        -((-a) / b)
    }
}

/// `i32` division, rounded toward zero.
pub fn div_i32(a: i32, b: i32) -> (r: i32)
    requires
        b > 0,
    ensures
        r == div_trunc(a as int, b as int),
{
    let v: i64 = a as i64 / b as i64;
    proof {
        lemma_div_trunc_bounds(a as int, b as int);
    }
    v as i32
}

/// Truncating division by a positive divisor moves toward zero: the
/// quotient lies between zero and the dividend.
pub proof fn lemma_div_trunc_bounds(a: int, b: int)
    requires
        b > 0,
    ensures
        a >= 0 ==> 0 <= div_trunc(a, b) <= a,
        a < 0 ==> a <= div_trunc(a, b) <= 0,
{
    if a >= 0 {
        assert(0 <= a / b <= a) by (nonlinear_arith)
            requires
                a >= 0,
                b > 0,
        ;
    } else {
        assert(0 <= (-a) / b <= -a) by (nonlinear_arith)
            requires
                a < 0,
                b > 0,
        ;
    }
}

} // verus!
