//! The fixed-point scalar domain: signed values carrying seven decimal
//! places, arithmetic that truncates toward zero, and integer square, cube
//! and fifth roots for the nonlinear transfer function.

use vstd::prelude::*;

verus! {

/// Number of fixed-point units in 1.0: every scalar carries seven decimal
/// places.
pub const SCALE: i64 = 10_000_000;

/// Largest magnitude a fixed-point scalar may take; the checked operations
/// report anything beyond it instead of returning a value.
pub const FX_LIM: i64 = 100_000_000_000_000_000;

pub open spec fn iabs(a: int) -> int {
    if a < 0 {
        -a
    } else {
        a
    }
}

/// Division truncating toward zero, the rounding that every fixed-point
/// operation of this library performs.
pub open spec fn tdiv(a: int, b: int) -> int
    recommends
        b != 0,
{
    if (a < 0) == (b < 0) {
        iabs(a) / iabs(b)
    } else {
        -(iabs(a) / iabs(b))
    }
}

/// The value of a fixed-point product before the range check.
pub open spec fn fx_mul_v(a: int, b: int) -> int {
    tdiv(a * b, SCALE as int)
}

/// A fixed-point product, or `None` when its magnitude exceeds [`FX_LIM`].
pub open spec fn fx_mul_c(a: int, b: int) -> Option<int> {
    if iabs(fx_mul_v(a, b)) <= FX_LIM as int {
        Some(fx_mul_v(a, b))
    } else {
        None
    }
}

/// The value of a fixed-point quotient before the range check.
pub open spec fn fx_div_v(a: int, b: int) -> int
    recommends
        b != 0,
{
    tdiv(a * (SCALE as int), b)
}

/// A fixed-point quotient, or `None` for a zero divisor or a result whose
/// magnitude exceeds [`FX_LIM`].
pub open spec fn fx_div_c(a: int, b: int) -> Option<int> {
    if b == 0 {
        None
    } else if iabs(fx_div_v(a, b)) <= FX_LIM as int {
        Some(fx_div_v(a, b))
    } else {
        None
    }
}

/// A fixed-point sum, or `None` when its magnitude exceeds [`FX_LIM`].
pub open spec fn fx_add_c(a: int, b: int) -> Option<int> {
    if iabs(a + b) <= FX_LIM as int {
        Some(a + b)
    } else {
        None
    }
}

/// A fixed-point difference, or `None` when its magnitude exceeds
/// [`FX_LIM`].
pub open spec fn fx_sub_c(a: int, b: int) -> Option<int> {
    if iabs(a - b) <= FX_LIM as int {
        Some(a - b)
    } else {
        None
    }
}

/// Relates a computed optional scalar to its specification value.
pub open spec fn opt_fx(r: Option<i64>, m: Option<int>) -> bool {
    match (r, m) {
        (Some(x), Some(y)) => x as int == y,
        (None, None) => true,
        _ => false,
    }
}

/// Truncating division on machine integers.
pub(crate) fn tdiv_i128(a: i128, b: i128) -> (r: i128)
    requires
        b != 0,
        a != i128::MIN,
        b != i128::MIN,
    ensures
        r as int == tdiv(a as int, b as int),
        iabs(r as int) <= iabs(a as int),
{
    let ua: u128 = if a < 0 {
        (-a) as u128
    } else {
        a as u128
    };
    let ub: u128 = if b < 0 {
        (-b) as u128
    } else {
        b as u128
    };
    let q: u128 = ua / ub;
    proof {
        assert(ua as int == iabs(a as int));
        assert(ub as int == iabs(b as int));
        vstd::arithmetic::div_mod::lemma_div_nonincreasing(ua as int, ub as int);
    }
    if (a < 0) != (b < 0) {
        -(q as i128)
    } else {
        q as i128
    }
}

/// A fixed-point product of two scalars, `None` when it leaves the
/// representable range.
pub fn fx_mul(a: i64, b: i64) -> (r: Option<i64>)
    ensures
        opt_fx(r, fx_mul_c(a as int, b as int)),
{
    let ai: i128 = a as i128;
    let bi: i128 = b as i128;
    proof {
        assert(-170141183460469231731687303715884105727i128 < ai * bi
            && ai * bi < 170141183460469231731687303715884105727i128) by (nonlinear_arith)
            requires
                -9223372036854775808i128 <= ai <= 9223372036854775807i128,
                -9223372036854775808i128 <= bi <= 9223372036854775807i128,
        ;
    }
    let p: i128 = ai * bi;
    let q: i128 = tdiv_i128(p, SCALE as i128);
    if -(FX_LIM as i128) <= q && q <= FX_LIM as i128 {
        Some(q as i64)
    } else {
        None
    }
}

/// A fixed-point quotient of two scalars, `None` for a zero divisor or a
/// result that leaves the representable range.
pub fn fx_div(a: i64, b: i64) -> (r: Option<i64>)
    ensures
        opt_fx(r, fx_div_c(a as int, b as int)),
{
    if b == 0 {
        return None;
    }
    let ai: i128 = a as i128;
    proof {
        assert(-92233720368547758080000000i128 <= ai * (SCALE as i128)
            && ai * (SCALE as i128) <= 92233720368547758080000000i128) by (nonlinear_arith)
            requires
                -9223372036854775808i128 <= ai <= 9223372036854775807i128,
        ;
    }
    let p: i128 = ai * (SCALE as i128);
    let q: i128 = tdiv_i128(p, b as i128);
    if -(FX_LIM as i128) <= q && q <= FX_LIM as i128 {
        Some(q as i64)
    } else {
        None
    }
}

/// A fixed-point sum, `None` when it leaves the representable range.
pub fn fx_add(a: i64, b: i64) -> (r: Option<i64>)
    ensures
        opt_fx(r, fx_add_c(a as int, b as int)),
{
    let p: i128 = (a as i128) + (b as i128);
    if -(FX_LIM as i128) <= p && p <= FX_LIM as i128 {
        Some(p as i64)
    } else {
        None
    }
}

/// A fixed-point difference, `None` when it leaves the representable range.
pub fn fx_sub(a: i64, b: i64) -> (r: Option<i64>)
    ensures
        opt_fx(r, fx_sub_c(a as int, b as int)),
{
    let p: i128 = (a as i128) - (b as i128);
    if -(FX_LIM as i128) <= p && p <= FX_LIM as i128 {
        Some(p as i64)
    } else {
        None
    }
}

/// Truncating division by a positive divisor cannot grow a magnitude bound.
pub proof fn lemma_tdiv_bound(a: int, bound: int, d: int)
    requires
        0 < d,
        iabs(a) <= bound,
    ensures
        iabs(tdiv(a, d)) <= bound / d,
{
    vstd::arithmetic::div_mod::lemma_div_is_ordered(iabs(a), bound, d);
    vstd::arithmetic::div_mod::lemma_div_pos_is_pos(iabs(a), d);
}

pub open spec fn sq_i(x: int) -> int {
    x * x
}

pub open spec fn cb_i(x: int) -> int {
    x * x * x
}

pub open spec fn p5_i(x: int) -> int {
    x * x * x * x * x
}

pub open spec fn is_root2(v: int, r: int) -> bool {
    0 <= r && sq_i(r) <= v && v < sq_i(r + 1)
}

pub open spec fn is_root3(v: int, r: int) -> bool {
    0 <= r && cb_i(r) <= v && v < cb_i(r + 1)
}

pub open spec fn is_root5(v: int, r: int) -> bool {
    0 <= r && p5_i(r) <= v && v < p5_i(r + 1)
}

/// The integer square root: the unique `r` with `r^2 <= v < (r+1)^2`.
pub open spec fn root2_v(v: int) -> int
    recommends
        0 <= v,
{
    choose|r: int| is_root2(v, r)
}

/// The integer cube root: the unique `r` with `r^3 <= v < (r+1)^3`.
pub open spec fn root3_v(v: int) -> int
    recommends
        0 <= v,
{
    choose|r: int| is_root3(v, r)
}

/// The integer fifth root: the unique `r` with `r^5 <= v < (r+1)^5`.
pub open spec fn root5_v(v: int) -> int
    recommends
        0 <= v,
{
    choose|r: int| is_root5(v, r)
}

/// Any witness of the square-root bounds is the square root.
pub proof fn lemma_root2_of(v: int, r: int)
    requires
        is_root2(v, r),
    ensures
        root2_v(v) == r,
{
    assert(exists|x: int| is_root2(v, x)) by {
        assert(is_root2(v, r));
    }
    let rr = root2_v(v);
    assert(is_root2(v, rr));
    if rr < r {
        assert((rr + 1) * (rr + 1) <= r * r) by (nonlinear_arith)
            requires
                0 <= rr + 1 <= r,
        ;
        assert(false);
    }
    if r < rr {
        assert((r + 1) * (r + 1) <= rr * rr) by (nonlinear_arith)
            requires
                0 <= r + 1 <= rr,
        ;
        assert(false);
    }
}

/// Any witness of the cube-root bounds is the cube root.
pub proof fn lemma_root3_of(v: int, r: int)
    requires
        is_root3(v, r),
    ensures
        root3_v(v) == r,
{
    assert(exists|x: int| is_root3(v, x)) by {
        assert(is_root3(v, r));
    }
    let rr = root3_v(v);
    assert(is_root3(v, rr));
    if rr < r {
        assert((rr + 1) * (rr + 1) * (rr + 1) <= r * r * r) by (nonlinear_arith)
            requires
                0 <= rr + 1 <= r,
        ;
        assert(false);
    }
    if r < rr {
        assert((r + 1) * (r + 1) * (r + 1) <= rr * rr * rr) by (nonlinear_arith)
            requires
                0 <= r + 1 <= rr,
        ;
        assert(false);
    }
}

/// Any witness of the fifth-root bounds is the fifth root.
pub proof fn lemma_root5_of(v: int, r: int)
    requires
        is_root5(v, r),
    ensures
        root5_v(v) == r,
{
    assert(exists|x: int| is_root5(v, x)) by {
        assert(is_root5(v, r));
    }
    let rr = root5_v(v);
    assert(is_root5(v, rr));
    if rr < r {
        assert((rr + 1) * (rr + 1) * (rr + 1) * (rr + 1) * (rr + 1) <= r * r * r * r * r)
            by (nonlinear_arith)
            requires
                0 <= rr + 1 <= r,
        ;
        assert(false);
    }
    if r < rr {
        assert((r + 1) * (r + 1) * (r + 1) * (r + 1) * (r + 1) <= rr * rr * rr * rr * rr)
            by (nonlinear_arith)
            requires
                0 <= r + 1 <= rr,
        ;
        assert(false);
    }
}

/// Integer square root by bisection.
pub fn root2(v: u128) -> (r: u64)
    requires
        (v as int) < 10_000_000_000_000_000,
    ensures
        is_root2(v as int, r as int),
        r as int == root2_v(v as int),
        r < 100_000_000,
{
    let mut lo: u64 = 0;
    let mut hi: u64 = 100_000_000;
    proof {
        assert(sq_i(0) == 0);
        assert(sq_i(100_000_000) == 10_000_000_000_000_000);
    }
    while lo + 1 < hi
        invariant
            lo < hi <= 100_000_000,
            sq_i(lo as int) <= v as int,
            (v as int) < sq_i(hi as int),
        decreases hi - lo,
    {
        let mid: u64 = lo + (hi - lo) / 2;
        proof {
            assert((mid as int) * (mid as int) <= 10_000_000_000_000_000) by (nonlinear_arith)
                requires
                    0 <= mid as int <= 100_000_000,
            ;
        }
        let m2: u128 = (mid as u128) * (mid as u128);
        if m2 <= v {
            lo = mid;
        } else {
            hi = mid;
        }
    }
    proof {
        lemma_root2_of(v as int, lo as int);
    }
    lo
}

/// Integer cube root by bisection.
pub fn root3(v: u128) -> (r: u64)
    requires
        (v as int) < 343_000_000_000_000_000_000_000_000,
    ensures
        is_root3(v as int, r as int),
        r as int == root3_v(v as int),
        r < 700_000_000,
{
    let mut lo: u64 = 0;
    let mut hi: u64 = 700_000_000;
    proof {
        assert(cb_i(0) == 0);
        assert(cb_i(700_000_000) == 343_000_000_000_000_000_000_000_000);
    }
    while lo + 1 < hi
        invariant
            lo < hi <= 700_000_000,
            cb_i(lo as int) <= v as int,
            (v as int) < cb_i(hi as int),
        decreases hi - lo,
    {
        let mid: u64 = lo + (hi - lo) / 2;
        proof {
            assert((mid as int) * (mid as int) <= 490_000_000_000_000_000
                && (mid as int) * (mid as int) * (mid as int)
                <= 343_000_000_000_000_000_000_000_000) by (nonlinear_arith)
                requires
                    0 <= mid as int <= 700_000_000,
            ;
        }
        let m3: u128 = (mid as u128) * (mid as u128) * (mid as u128);
        if m3 <= v {
            lo = mid;
        } else {
            hi = mid;
        }
    }
    proof {
        lemma_root3_of(v as int, lo as int);
    }
    lo
}

/// Integer fifth root by bisection.
pub fn root5(v: u128) -> (r: u64)
    requires
        (v as int) < 45_435_424_000_000_000_000_000_000_000_000_000_000,
    ensures
        is_root5(v as int, r as int),
        r as int == root5_v(v as int),
        r < 34_000_000,
{
    let mut lo: u64 = 0;
    let mut hi: u64 = 34_000_000;
    proof {
        assert(p5_i(0) == 0);
        assert(p5_i(34_000_000) == 45_435_424_000_000_000_000_000_000_000_000_000_000);
    }
    while lo + 1 < hi
        invariant
            lo < hi <= 34_000_000,
            p5_i(lo as int) <= v as int,
            (v as int) < p5_i(hi as int),
        decreases hi - lo,
    {
        let mid: u64 = lo + (hi - lo) / 2;
        proof {
            assert((mid as int) * (mid as int) <= 1_156_000_000_000_000
                && (mid as int) * (mid as int) * (mid as int) <= 39_304_000_000_000_000_000_000
                && (mid as int) * (mid as int) * (mid as int) * (mid as int)
                <= 1_336_336_000_000_000_000_000_000_000_000
                && (mid as int) * (mid as int) * (mid as int) * (mid as int) * (mid as int)
                <= 45_435_424_000_000_000_000_000_000_000_000_000_000) by (nonlinear_arith)
                requires
                    0 <= mid as int <= 34_000_000,
            ;
        }
        let m5: u128 = (mid as u128) * (mid as u128) * (mid as u128) * (mid as u128)
            * (mid as u128);
        if m5 <= v {
            lo = mid;
        } else {
            hi = mid;
        }
    }
    proof {
        lemma_root5_of(v as int, lo as int);
    }
    lo
}

} // verus!
