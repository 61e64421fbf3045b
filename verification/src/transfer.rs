//! The sRGB opto-electronic transfer function and its inverse over
//! fixed-point scalars, extended to negative inputs by sign mirroring.
//!
//! The power `x^2.4` is computed as `x^2 * (x^2)^(1/5)` and `x^(1/2.4)` as
//! `(x^(1/12))^5` with `x^(1/12)` taken as a cube root followed by two
//! square roots; each root is the exact integer root of the scaled value.

use vstd::prelude::*;
use crate::fixed::iabs;
use crate::fixed::root2;
use crate::fixed::root2_v;
use crate::fixed::root3;
use crate::fixed::root3_v;
use crate::fixed::root5;
use crate::fixed::root5_v;
use crate::fixed::sq_i;
use crate::fixed::tdiv;
use crate::fixed::SCALE;

verus! {

/// Inputs to [`srgb_to_linear`] may not exceed 20.0 in magnitude.
pub const SRGB_DECODE_MAX: i64 = 200_000_000;

/// Inputs to [`linear_to_srgb`] may not exceed 300000.0 in magnitude.
pub const SRGB_ENCODE_MAX: i64 = 3_000_000_000_000;

/// Nonlinear values at most 0.04045 in magnitude take the linear branch.
pub const DECODE_THRESHOLD: i64 = 404_500;

/// Linear values at most 0.0031308 in magnitude take the linear branch.
pub const ENCODE_THRESHOLD: i64 = 31_308;

/// 12.92, the slope of the linear branch.
pub const LINEAR_SLOPE: i64 = 129_200_000;

/// 1.055, the gain of the power branch.
pub const POWER_GAIN: i64 = 10_550_000;

/// 0.055, the offset of the power branch.
pub const POWER_OFFSET: i64 = 550_000;

/// The decoded (linear) value of a nonnegative nonlinear sRGB value:
/// `u / 12.92` below the threshold, `((u + 0.055) / 1.055)^2.4` above it,
/// with every step truncated to the scale.
pub open spec fn srgb_decode_mag(u: int) -> int
    recommends
        0 <= u,
{
    if u <= DECODE_THRESHOLD as int {
        tdiv(u * (SCALE as int), LINEAR_SLOPE as int)
    } else {
        let x = tdiv((u + POWER_OFFSET as int) * (SCALE as int), POWER_GAIN as int);
        let w = tdiv(x * x, SCALE as int);
        let f = root5_v(w * 10_000_000_000_000_000_000_000_000_000);
        tdiv(w * f, SCALE as int)
    }
}

/// The nonlinear-to-linear map, mirrored around zero.
pub open spec fn srgb_to_linear_spec(u: int) -> int {
    if u < 0 {
        -srgb_decode_mag(-u)
    } else {
        srgb_decode_mag(u)
    }
}

/// The encoded (nonlinear) value of a nonnegative linear value:
/// `u * 12.92` below the threshold, `1.055 * u^(1/2.4) - 0.055` above it,
/// with every step truncated to the scale.
pub open spec fn srgb_encode_mag(u: int) -> int
    recommends
        0 <= u,
{
    if u <= ENCODE_THRESHOLD as int {
        tdiv(u * (LINEAR_SLOPE as int), SCALE as int)
    } else {
        let t1 = root3_v(u * 100_000_000_000_000);
        let t2 = root2_v(t1 * (SCALE as int));
        let t3 = root2_v(t2 * (SCALE as int));
        let t5 = tdiv(
            tdiv(tdiv(tdiv(t3 * t3, SCALE as int) * t3, SCALE as int) * t3, SCALE as int) * t3,
            SCALE as int,
        );
        tdiv((POWER_GAIN as int) * t5, SCALE as int) - POWER_OFFSET as int
    }
}

/// The linear-to-nonlinear map, mirrored around zero.
pub open spec fn linear_to_srgb_spec(u: int) -> int {
    if u < 0 {
        -srgb_encode_mag(-u)
    } else {
        srgb_encode_mag(u)
    }
}

/// Both transfer maps are odd functions: mirroring the input mirrors the
/// output, so extended-range negative values encode and decode
/// symmetrically to positive ones.
pub proof fn lemma_transfer_odd(u: int)
    ensures
        srgb_to_linear_spec(-u) == -srgb_to_linear_spec(u),
        linear_to_srgb_spec(-u) == -linear_to_srgb_spec(u),
{
    if u == 0 {
        assert(srgb_decode_mag(0) == 0);
        assert(srgb_encode_mag(0) == 0);
    }
}

/// On the linear segment, decoding then encoding returns to within 13
/// fixed-point units (1.3e-6) of the start: each direction truncates
/// once, and the slope is under 13.
pub proof fn lemma_round_trip_decode_first(u: int)
    requires
        iabs(u) <= DECODE_THRESHOLD as int,
    ensures
        iabs(linear_to_srgb_spec(srgb_to_linear_spec(u)) - u) <= 13,
{
    if u >= 0 {
        lemma_round_trip_decode_first_mag(u);
    } else {
        lemma_round_trip_decode_first_mag(-u);
        let d = srgb_decode_mag(-u);
        if d == 0 {
            assert(srgb_encode_mag(0) == 0);
        }
    }
}

proof fn lemma_round_trip_decode_first_mag(u: int)
    requires
        0 <= u <= DECODE_THRESHOLD as int,
    ensures
        0 <= srgb_decode_mag(u) <= ENCODE_THRESHOLD as int,
        iabs(srgb_encode_mag(srgb_decode_mag(u)) - u) <= 13,
{
    let s = SCALE as int;
    let lf = LINEAR_SLOPE as int;
    vstd::arithmetic::div_mod::lemma_div_pos_is_pos(u * s, lf);
    assert(srgb_decode_mag(u) == (u * s) / lf);
    let d = (u * s) / lf;
    vstd::arithmetic::div_mod::lemma_div_is_ordered(u * s, 404_500 * s, lf);
    assert((404_500int * 10_000_000int) / 129_200_000int == 31_308int);
    assert(d <= 31_308);
    assert(srgb_encode_mag(d) == (d * lf) / s) by {
        vstd::arithmetic::div_mod::lemma_div_pos_is_pos(d * lf, s);
    }
    let e = (d * lf) / s;
    vstd::arithmetic::div_mod::lemma_fundamental_div_mod(u * s, lf);
    vstd::arithmetic::div_mod::lemma_mod_division_less_than_divisor(u * s, lf);
    let r = (u * s) % lf;
    assert(lf * d == u * s - r);
    assert(d * lf == u * s - r) by {
        vstd::arithmetic::mul::lemma_mul_is_commutative(d, lf);
    }
    vstd::arithmetic::div_mod::lemma_div_is_ordered(d * lf, u * s, s);
    vstd::arithmetic::div_mod::lemma_div_multiples_vanish(u, s);
    assert(u * s == s * u);
    assert(e <= u);
    assert(d * lf >= s * (u - 13));
    vstd::arithmetic::div_mod::lemma_div_is_ordered(s * (u - 13), d * lf, s);
    vstd::arithmetic::div_mod::lemma_div_multiples_vanish(u - 13, s);
    assert(e >= u - 13);
}

/// On the linear segment, encoding then decoding returns to within one
/// fixed-point unit of the start.
pub proof fn lemma_round_trip_encode_first(u: int)
    requires
        iabs(u) <= ENCODE_THRESHOLD as int,
    ensures
        iabs(srgb_to_linear_spec(linear_to_srgb_spec(u)) - u) <= 1,
{
    if u >= 0 {
        lemma_round_trip_encode_first_mag(u);
    } else {
        lemma_round_trip_encode_first_mag(-u);
        let e = srgb_encode_mag(-u);
        if e == 0 {
            assert(srgb_decode_mag(0) == 0);
        }
    }
}

proof fn lemma_round_trip_encode_first_mag(u: int)
    requires
        0 <= u <= ENCODE_THRESHOLD as int,
    ensures
        0 <= srgb_encode_mag(u) <= DECODE_THRESHOLD as int,
        iabs(srgb_decode_mag(srgb_encode_mag(u)) - u) <= 1,
{
    let s = SCALE as int;
    let lf = LINEAR_SLOPE as int;
    vstd::arithmetic::div_mod::lemma_div_pos_is_pos(u * lf, s);
    assert(srgb_encode_mag(u) == (u * lf) / s);
    let e = (u * lf) / s;
    vstd::arithmetic::div_mod::lemma_div_is_ordered(u * lf, 31_308 * lf, s);
    assert((31_308int * 129_200_000int) / 10_000_000int == 404_499int);
    assert(e <= 404_499);
    assert(srgb_decode_mag(e) == (e * s) / lf) by {
        vstd::arithmetic::div_mod::lemma_div_pos_is_pos(e * s, lf);
    }
    let d = (e * s) / lf;
    vstd::arithmetic::div_mod::lemma_fundamental_div_mod(u * lf, s);
    vstd::arithmetic::div_mod::lemma_mod_division_less_than_divisor(u * lf, s);
    let r = (u * lf) % s;
    assert(s * e == u * lf - r);
    assert(e * s == u * lf - r) by {
        vstd::arithmetic::mul::lemma_mul_is_commutative(e, s);
    }
    vstd::arithmetic::div_mod::lemma_div_is_ordered(e * s, u * lf, lf);
    vstd::arithmetic::div_mod::lemma_div_multiples_vanish(u, lf);
    assert(u * lf == lf * u);
    assert(d <= u);
    assert(e * s >= lf * (u - 1));
    vstd::arithmetic::div_mod::lemma_div_is_ordered(lf * (u - 1), e * s, lf);
    vstd::arithmetic::div_mod::lemma_div_multiples_vanish(u - 1, lf);
    assert(d >= u - 1);
}

/// Decodes a nonlinear sRGB value to a linear-light value.
pub fn srgb_to_linear(u: i64) -> (r: i64)
    requires
        iabs(u as int) <= SRGB_DECODE_MAX as int,
    ensures
        r as int == srgb_to_linear_spec(u as int),
        iabs(r as int) <= 14_000_000_000,
{
    let mag: u64 = if u < 0 {
        (-u) as u64
    } else {
        u as u64
    };
    let r_mag: u64 = if mag <= DECODE_THRESHOLD as u64 {
        let q: u128 = (mag as u128) * 10_000_000 / 129_200_000;
        proof {
            assert(q as int == tdiv(mag as int * (SCALE as int), LINEAR_SLOPE as int));
            assert(q as int <= 2_000_000_000_000_000int / 129_200_000int);
        }
        q as u64
    } else {
        let x: u128 = ((mag as u128) + 550_000) * 10_000_000 / 10_550_000;
        proof {
            assert(x as int == tdiv(
                (mag as int + POWER_OFFSET as int) * (SCALE as int),
                POWER_GAIN as int,
            ));
            assert(x as int <= 2_005_500_000_000_000int / 10_550_000int);
            assert((x as int) * (x as int) <= 40_000_000_000_000_000) by (nonlinear_arith)
                requires
                    0 <= x as int <= 200_000_000,
            ;
        }
        let w: u128 = x * x / 10_000_000;
        proof {
            assert(w as int == tdiv((x as int) * (x as int), SCALE as int));
            assert(w <= 4_000_000_000);
        }
        let f: u64 = root5(w * 10_000_000_000_000_000_000_000_000_000);
        proof {
            assert((w as int) * (f as int) <= 136_000_000_000_000_000) by (nonlinear_arith)
                requires
                    0 <= w as int <= 4_000_000_000,
                    0 <= f as int <= 34_000_000,
            ;
        }
        let y: u128 = w * (f as u128) / 10_000_000;
        proof {
            assert(y as int == tdiv((w as int) * (f as int), SCALE as int));
            assert(y <= 13_600_000_000);
        }
        y as u64
    };
    if u < 0 {
        -(r_mag as i64)
    } else {
        r_mag as i64
    }
}

/// Encodes a linear-light value as a nonlinear sRGB value.
pub fn linear_to_srgb(u: i64) -> (r: i64)
    requires
        iabs(u as int) <= SRGB_ENCODE_MAX as int,
    ensures
        r as int == linear_to_srgb_spec(u as int),
        iabs(r as int) <= 3_400_000_000,
{
    let mag: u64 = if u < 0 {
        (-u) as u64
    } else {
        u as u64
    };
    let r_mag: i64 = if mag <= ENCODE_THRESHOLD as u64 {
        let q: u128 = (mag as u128) * 129_200_000 / 10_000_000;
        proof {
            assert(q as int == tdiv(mag as int * (LINEAR_SLOPE as int), SCALE as int));
            assert(q as int <= 31_308int * 129_200_000int / 10_000_000int);
        }
        q as i64
    } else {
        let t1: u64 = root3((mag as u128) * 100_000_000_000_000);
        let t2: u64 = root2((t1 as u128) * 10_000_000);
        let t3: u64 = root2((t2 as u128) * 10_000_000);
        proof {
            assert(sq_i(t3 as int) <= (t2 as int) * 10_000_000);
            assert(t3 as int <= 31_622_776) by (nonlinear_arith)
                requires
                    0 <= t3 as int,
                    (t3 as int) * (t3 as int) < 1_000_000_000_000_000,
            ;
            assert((t3 as int) * (t3 as int) <= 1_000_000_000_000_000) by (nonlinear_arith)
                requires
                    0 <= t3 as int <= 31_622_776,
            ;
        }
        let p2: u128 = (t3 as u128) * (t3 as u128) / 10_000_000;
        proof {
            assert(p2 as int == tdiv((t3 as int) * (t3 as int), SCALE as int));
            assert(p2 <= 100_000_000);
            assert((p2 as int) * (t3 as int) <= 3_162_277_600_000_000) by (nonlinear_arith)
                requires
                    0 <= p2 as int <= 100_000_000,
                    0 <= t3 as int <= 31_622_776,
            ;
        }
        let p3: u128 = p2 * (t3 as u128) / 10_000_000;
        proof {
            assert(p3 as int == tdiv((p2 as int) * (t3 as int), SCALE as int));
            assert(p3 <= 316_227_760);
            assert((p3 as int) * (t3 as int) <= 10_000_000_000_000_000) by (nonlinear_arith)
                requires
                    0 <= p3 as int <= 316_227_760,
                    0 <= t3 as int <= 31_622_776,
            ;
        }
        let p4: u128 = p3 * (t3 as u128) / 10_000_000;
        proof {
            assert(p4 as int == tdiv((p3 as int) * (t3 as int), SCALE as int));
            assert(p4 <= 1_000_000_000);
            assert((p4 as int) * (t3 as int) <= 31_622_776_000_000_000) by (nonlinear_arith)
                requires
                    0 <= p4 as int <= 1_000_000_000,
                    0 <= t3 as int <= 31_622_776,
            ;
        }
        let p5: u128 = p4 * (t3 as u128) / 10_000_000;
        proof {
            assert(p5 as int == tdiv((p4 as int) * (t3 as int), SCALE as int));
            assert(p5 <= 3_162_277_600);
        }
        let ya: u128 = 10_550_000 * p5 / 10_000_000;
        proof {
            assert(ya as int == tdiv((POWER_GAIN as int) * (p5 as int), SCALE as int));
            assert(ya as int <= 10_550_000int * 3_162_277_600int / 10_000_000int);
        }
        (ya as i64) - 550_000
    };
    if u < 0 {
        -r_mag
    } else {
        r_mag
    }
}

} // verus!
