//! Three-component vectors and 3x3 matrices over fixed-point scalars,
//! with matrix-vector and matrix-matrix multiplication and closed-form
//! cofactor inversion.
//!
//! Each operation exists in two forms: a checked form returning `None`
//! when a scalar leaves the representable range, used while a color space
//! is constructed, and a bounded form used on validated matrices.

use vstd::prelude::*;
use crate::fixed::fx_add;
use crate::fixed::fx_add_c;
use crate::fixed::fx_div;
use crate::fixed::fx_div_c;
use crate::fixed::fx_mul;
use crate::fixed::fx_mul_c;
use crate::fixed::fx_sub;
use crate::fixed::fx_sub_c;
use crate::fixed::iabs;
use crate::fixed::lemma_tdiv_bound;
use crate::fixed::opt_fx;
use crate::fixed::tdiv;
use crate::fixed::SCALE;

verus! {

/// A column vector of three fixed-point scalars.
#[derive(Clone, Copy, Debug, PartialEq, Eq, Structural)]
pub struct Vector3 {
    pub x: i64,
    pub y: i64,
    pub z: i64,
}

/// A 3x3 matrix stored as three column vectors.
#[derive(Clone, Copy, Debug, PartialEq, Eq, Structural)]
pub struct Matrix3x3 {
    pub c0: Vector3,
    pub c1: Vector3,
    pub c2: Vector3,
}

/// The mathematical value of a vector: its components as unbounded integers.
pub ghost struct Vec3I {
    pub x: int,
    pub y: int,
    pub z: int,
}

/// The mathematical value of a matrix: three integer columns.
pub ghost struct Mat3I {
    pub c0: Vec3I,
    pub c1: Vec3I,
    pub c2: Vec3I,
}

pub open spec fn v3(v: Vector3) -> Vec3I {
    Vec3I { x: v.x as int, y: v.y as int, z: v.z as int }
}

pub open spec fn m3(m: Matrix3x3) -> Mat3I {
    Mat3I { c0: v3(m.c0), c1: v3(m.c1), c2: v3(m.c2) }
}

pub open spec fn vec_in(v: Vec3I, bound: int) -> bool {
    iabs(v.x) <= bound && iabs(v.y) <= bound && iabs(v.z) <= bound
}

pub open spec fn mat_in(m: Mat3I, bound: int) -> bool {
    vec_in(m.c0, bound) && vec_in(m.c1, bound) && vec_in(m.c2, bound)
}

pub open spec fn row0(m: Mat3I) -> Vec3I {
    Vec3I { x: m.c0.x, y: m.c1.x, z: m.c2.x }
}

pub open spec fn row1(m: Mat3I) -> Vec3I {
    Vec3I { x: m.c0.y, y: m.c1.y, z: m.c2.y }
}

pub open spec fn row2(m: Mat3I) -> Vec3I {
    Vec3I { x: m.c0.z, y: m.c1.z, z: m.c2.z }
}

/// A dot product where each partial product is truncated to the scale,
/// exactly as the executable code computes it.
pub open spec fn dot3_t(a: Vec3I, b: Vec3I) -> int {
    tdiv(a.x * b.x, SCALE as int) + tdiv(a.y * b.y, SCALE as int) + tdiv(
        a.z * b.z,
        SCALE as int,
    )
}

pub open spec fn matvec_t(m: Mat3I, v: Vec3I) -> Vec3I {
    Vec3I { x: dot3_t(row0(m), v), y: dot3_t(row1(m), v), z: dot3_t(row2(m), v) }
}

pub open spec fn matmul_t(a: Mat3I, b: Mat3I) -> Mat3I {
    Mat3I { c0: matvec_t(a, b.c0), c1: matvec_t(a, b.c1), c2: matvec_t(a, b.c2) }
}

pub open spec fn opt_v3(r: Option<Vector3>, m: Option<Vec3I>) -> bool {
    match (r, m) {
        (Some(v), Some(w)) => v3(v) == w,
        (None, None) => true,
        _ => false,
    }
}

pub open spec fn opt_m3(r: Option<Matrix3x3>, m: Option<Mat3I>) -> bool {
    match (r, m) {
        (Some(v), Some(w)) => m3(v) == w,
        (None, None) => true,
        _ => false,
    }
}

pub open spec fn dot3_c(a: Vec3I, b: Vec3I) -> Option<int> {
    match (fx_mul_c(a.x, b.x), fx_mul_c(a.y, b.y), fx_mul_c(a.z, b.z)) {
        (Some(x), Some(y), Some(z)) => match fx_add_c(x, y) {
            Some(s) => fx_add_c(s, z),
            None => None,
        },
        _ => None,
    }
}

pub open spec fn matvec_c(m: Mat3I, v: Vec3I) -> Option<Vec3I> {
    match (dot3_c(row0(m), v), dot3_c(row1(m), v), dot3_c(row2(m), v)) {
        (Some(x), Some(y), Some(z)) => Some(Vec3I { x: x, y: y, z: z }),
        _ => None,
    }
}

pub open spec fn matmul_c(a: Mat3I, b: Mat3I) -> Option<Mat3I> {
    match (matvec_c(a, b.c0), matvec_c(a, b.c1), matvec_c(a, b.c2)) {
        (Some(c0), Some(c1), Some(c2)) => Some(Mat3I { c0: c0, c1: c1, c2: c2 }),
        _ => None,
    }
}

pub open spec fn scale_c(v: Vec3I, s: int) -> Option<Vec3I> {
    match (fx_mul_c(v.x, s), fx_mul_c(v.y, s), fx_mul_c(v.z, s)) {
        (Some(x), Some(y), Some(z)) => Some(Vec3I { x: x, y: y, z: z }),
        _ => None,
    }
}

/// The checked 2x2 determinant `a*d - b*c`.
pub open spec fn minor_c(a: int, b: int, c: int, d: int) -> Option<int> {
    match (fx_mul_c(a, d), fx_mul_c(b, c)) {
        (Some(p), Some(q)) => fx_sub_c(p, q),
        _ => None,
    }
}

/// The checked determinant, by cofactor expansion along the first row.
pub open spec fn det3_c(m: Mat3I) -> Option<int> {
    match (
        minor_c(m.c1.y, m.c2.y, m.c1.z, m.c2.z),
        minor_c(m.c0.y, m.c2.y, m.c0.z, m.c2.z),
        minor_c(m.c0.y, m.c1.y, m.c0.z, m.c1.z),
    ) {
        (Some(m0), Some(m1), Some(m2)) => match (
            fx_mul_c(m.c0.x, m0),
            fx_mul_c(m.c1.x, m1),
            fx_mul_c(m.c2.x, m2),
        ) {
            (Some(t0), Some(t1), Some(t2)) => match fx_sub_c(t0, t1) {
                Some(s) => fx_add_c(s, t2),
                None => None,
            },
            _ => None,
        },
        _ => None,
    }
}

pub open spec fn ent_c(p: Option<int>, det: int) -> Option<int> {
    match p {
        Some(v) => fx_div_c(v, det),
        None => None,
    }
}

/// The checked closed-form inverse: each adjugate cofactor divided by the
/// determinant.
pub open spec fn inv3_c(m: Mat3I, det: int) -> Option<Mat3I>
    recommends
        det != 0,
{
    let a = m.c0.x;
    let b = m.c1.x;
    let c = m.c2.x;
    let d = m.c0.y;
    let e = m.c1.y;
    let f = m.c2.y;
    let g = m.c0.z;
    let h = m.c1.z;
    let i = m.c2.z;
    match (
        ent_c(minor_c(e, f, h, i), det),
        ent_c(minor_c(f, d, i, g), det),
        ent_c(minor_c(d, e, g, h), det),
        ent_c(minor_c(c, b, i, h), det),
        ent_c(minor_c(a, c, g, i), det),
        ent_c(minor_c(b, a, h, g), det),
        ent_c(minor_c(b, c, e, f), det),
        ent_c(minor_c(c, a, f, d), det),
        ent_c(minor_c(a, b, d, e), det),
    ) {
        (
            Some(i00),
            Some(i10),
            Some(i20),
            Some(i01),
            Some(i11),
            Some(i21),
            Some(i02),
            Some(i12),
            Some(i22),
        ) => Some(
            Mat3I {
                c0: Vec3I { x: i00, y: i10, z: i20 },
                c1: Vec3I { x: i01, y: i11, z: i21 },
                c2: Vec3I { x: i02, y: i12, z: i22 },
            },
        ),
        _ => None,
    }
}

impl Vector3 {
    pub fn new(x: i64, y: i64, z: i64) -> (r: Self)
        ensures
            r == (Vector3 { x: x, y: y, z: z }),
    {
        Vector3 { x, y, z }
    }
}

impl Matrix3x3 {
    pub fn from_columns(c0: Vector3, c1: Vector3, c2: Vector3) -> (r: Self)
        ensures
            r == (Matrix3x3 { c0: c0, c1: c1, c2: c2 }),
    {
        Matrix3x3 { c0, c1, c2 }
    }
}

pub(crate) fn dot3_chk(a: &Vector3, b: &Vector3) -> (r: Option<i64>)
    ensures
        opt_fx(r, dot3_c(v3(*a), v3(*b))),
{
    match (fx_mul(a.x, b.x), fx_mul(a.y, b.y), fx_mul(a.z, b.z)) {
        (Some(x), Some(y), Some(z)) => match fx_add(x, y) {
            Some(s) => fx_add(s, z),
            None => None,
        },
        _ => None,
    }
}

pub(crate) fn matvec_chk(m: &Matrix3x3, v: &Vector3) -> (r: Option<Vector3>)
    ensures
        opt_v3(r, matvec_c(m3(*m), v3(*v))),
{
    let r0 = Vector3 { x: m.c0.x, y: m.c1.x, z: m.c2.x };
    let r1 = Vector3 { x: m.c0.y, y: m.c1.y, z: m.c2.y };
    let r2 = Vector3 { x: m.c0.z, y: m.c1.z, z: m.c2.z };
    match (dot3_chk(&r0, v), dot3_chk(&r1, v), dot3_chk(&r2, v)) {
        (Some(x), Some(y), Some(z)) => Some(Vector3 { x, y, z }),
        _ => None,
    }
}

pub(crate) fn matmul_chk(a: &Matrix3x3, b: &Matrix3x3) -> (r: Option<Matrix3x3>)
    ensures
        opt_m3(r, matmul_c(m3(*a), m3(*b))),
{
    match (matvec_chk(a, &b.c0), matvec_chk(a, &b.c1), matvec_chk(a, &b.c2)) {
        (Some(c0), Some(c1), Some(c2)) => Some(Matrix3x3 { c0, c1, c2 }),
        _ => None,
    }
}

pub(crate) fn scale_chk(v: &Vector3, s: i64) -> (r: Option<Vector3>)
    ensures
        opt_v3(r, scale_c(v3(*v), s as int)),
{
    match (fx_mul(v.x, s), fx_mul(v.y, s), fx_mul(v.z, s)) {
        (Some(x), Some(y), Some(z)) => Some(Vector3 { x, y, z }),
        _ => None,
    }
}

pub(crate) fn minor_chk(a: i64, b: i64, c: i64, d: i64) -> (r: Option<i64>)
    ensures
        opt_fx(r, minor_c(a as int, b as int, c as int, d as int)),
{
    match (fx_mul(a, d), fx_mul(b, c)) {
        (Some(p), Some(q)) => fx_sub(p, q),
        _ => None,
    }
}

pub(crate) fn det3_chk(m: &Matrix3x3) -> (r: Option<i64>)
    ensures
        opt_fx(r, det3_c(m3(*m))),
{
    match (
        minor_chk(m.c1.y, m.c2.y, m.c1.z, m.c2.z),
        minor_chk(m.c0.y, m.c2.y, m.c0.z, m.c2.z),
        minor_chk(m.c0.y, m.c1.y, m.c0.z, m.c1.z),
    ) {
        (Some(m0), Some(m1), Some(m2)) => match (
            fx_mul(m.c0.x, m0),
            fx_mul(m.c1.x, m1),
            fx_mul(m.c2.x, m2),
        ) {
            (Some(t0), Some(t1), Some(t2)) => match fx_sub(t0, t1) {
                Some(s) => fx_add(s, t2),
                None => None,
            },
            _ => None,
        },
        _ => None,
    }
}

pub(crate) fn ent_chk(p: Option<i64>, det: i64) -> (r: Option<i64>)
    ensures
        opt_fx(r, ent_c(
            match p {
                Some(v) => Some(v as int),
                None => None,
            },
            det as int,
        )),
{
    match p {
        Some(v) => fx_div(v, det),
        None => None,
    }
}

pub(crate) fn inv3_chk(m: &Matrix3x3, det: i64) -> (r: Option<Matrix3x3>)
    ensures
        opt_m3(r, inv3_c(m3(*m), det as int)),
{
    let a = m.c0.x;
    let b = m.c1.x;
    let c = m.c2.x;
    let d = m.c0.y;
    let e = m.c1.y;
    let f = m.c2.y;
    let g = m.c0.z;
    let h = m.c1.z;
    let i = m.c2.z;
    match (
        ent_chk(minor_chk(e, f, h, i), det),
        ent_chk(minor_chk(f, d, i, g), det),
        ent_chk(minor_chk(d, e, g, h), det),
        ent_chk(minor_chk(c, b, i, h), det),
        ent_chk(minor_chk(a, c, g, i), det),
        ent_chk(minor_chk(b, a, h, g), det),
        ent_chk(minor_chk(b, c, e, f), det),
        ent_chk(minor_chk(c, a, f, d), det),
        ent_chk(minor_chk(a, b, d, e), det),
    ) {
        (
            Some(i00),
            Some(i10),
            Some(i20),
            Some(i01),
            Some(i11),
            Some(i21),
            Some(i02),
            Some(i12),
            Some(i22),
        ) => Some(
            Matrix3x3 {
                c0: Vector3 { x: i00, y: i10, z: i20 },
                c1: Vector3 { x: i01, y: i11, z: i21 },
                c2: Vector3 { x: i02, y: i12, z: i22 },
            },
        ),
        _ => None,
    }
}

/// A dot product of two vectors whose components the caller has bounded;
/// `ba` and `bb` are those bounds.
pub(crate) fn dot3(a: &Vector3, b: &Vector3, Ghost(ba): Ghost<int>, Ghost(bb): Ghost<int>) -> (r:
    i64)
    requires
        1 <= ba,
        1 <= bb,
        ba * bb <= 10_000_000_000_000_000_000_000_000,
        vec_in(v3(*a), ba),
        vec_in(v3(*b), bb),
    ensures
        r as int == dot3_t(v3(*a), v3(*b)),
        iabs(r as int) <= 3 * ((ba * bb) / (SCALE as int)),
{
    proof {
        assert(-(ba * bb) <= (a.x as int) * (b.x as int) && (a.x as int) * (b.x as int) <= ba * bb
            && -(ba * bb) <= (a.y as int) * (b.y as int) && (a.y as int) * (b.y as int) <= ba * bb
            && -(ba * bb) <= (a.z as int) * (b.z as int) && (a.z as int) * (b.z as int) <= ba * bb)
            by (nonlinear_arith)
            requires
                1 <= ba,
                1 <= bb,
                iabs(a.x as int) <= ba,
                iabs(a.y as int) <= ba,
                iabs(a.z as int) <= ba,
                iabs(b.x as int) <= bb,
                iabs(b.y as int) <= bb,
                iabs(b.z as int) <= bb,
        ;
    }
    let px: i128 = (a.x as i128) * (b.x as i128);
    let py: i128 = (a.y as i128) * (b.y as i128);
    let pz: i128 = (a.z as i128) * (b.z as i128);
    let qx: i128 = crate::fixed::tdiv_i128(px, SCALE as i128);
    let qy: i128 = crate::fixed::tdiv_i128(py, SCALE as i128);
    let qz: i128 = crate::fixed::tdiv_i128(pz, SCALE as i128);
    proof {
        lemma_tdiv_bound(px as int, ba * bb, SCALE as int);
        lemma_tdiv_bound(py as int, ba * bb, SCALE as int);
        lemma_tdiv_bound(pz as int, ba * bb, SCALE as int);
    }
    let s: i128 = qx + qy + qz;
    s as i64
}

/// Applies a matrix to a vector; `bm` and `bv` bound their entries.
pub(crate) fn matvec(m: &Matrix3x3, v: &Vector3, Ghost(bm): Ghost<int>, Ghost(bv): Ghost<int>) -> (r:
    Vector3)
    requires
        1 <= bm,
        1 <= bv,
        bm * bv <= 10_000_000_000_000_000_000_000_000,
        mat_in(m3(*m), bm),
        vec_in(v3(*v), bv),
    ensures
        v3(r) == matvec_t(m3(*m), v3(*v)),
        vec_in(v3(r), 3 * ((bm * bv) / (SCALE as int))),
{
    let r0 = Vector3 { x: m.c0.x, y: m.c1.x, z: m.c2.x };
    let r1 = Vector3 { x: m.c0.y, y: m.c1.y, z: m.c2.y };
    let r2 = Vector3 { x: m.c0.z, y: m.c1.z, z: m.c2.z };
    let x = dot3(&r0, v, Ghost(bm), Ghost(bv));
    let y = dot3(&r1, v, Ghost(bm), Ghost(bv));
    let z = dot3(&r2, v, Ghost(bm), Ghost(bv));
    Vector3 { x, y, z }
}

/// Composes two matrices; `ba` and `bb` bound their entries.
pub(crate) fn matmul(a: &Matrix3x3, b: &Matrix3x3, Ghost(ba): Ghost<int>, Ghost(bb): Ghost<int>) -> (r:
    Matrix3x3)
    requires
        1 <= ba,
        1 <= bb,
        ba * bb <= 10_000_000_000_000_000_000_000_000,
        mat_in(m3(*a), ba),
        mat_in(m3(*b), bb),
    ensures
        m3(r) == matmul_t(m3(*a), m3(*b)),
        mat_in(m3(r), 3 * ((ba * bb) / (SCALE as int))),
{
    let c0 = matvec(a, &b.c0, Ghost(ba), Ghost(bb));
    let c1 = matvec(a, &b.c1, Ghost(ba), Ghost(bb));
    let c2 = matvec(a, &b.c2, Ghost(ba), Ghost(bb));
    Matrix3x3 { c0, c1, c2 }
}

} // verus!
