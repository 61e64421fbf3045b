//! RGB color spaces expressed in relation to CIE XYZ, Bradford chromatic
//! adaptation between white points, and precomposed space-to-space
//! converters.
//!
//! Matrices are stored relative to the D50 white point, the convention of
//! ICC profiles, so any two color spaces compose directly. Construction
//! validates its inputs: a chromaticity with a zero `y`, a singular primary
//! matrix, a white point with a zero cone response, or an intermediate
//! value outside the representable range is reported as an error instead
//! of poisoning later arithmetic.

use vstd::prelude::*;
use crate::fixed::fx_div;
use crate::fixed::fx_div_c;
use crate::fixed::iabs;
use crate::fixed::tdiv;
use crate::fixed::SCALE;
use crate::linalg::det3_c;
use crate::linalg::det3_chk;
use crate::linalg::inv3_c;
use crate::linalg::inv3_chk;
use crate::linalg::m3;
use crate::linalg::mat_in;
use crate::linalg::matmul;
use crate::linalg::matmul_c;
use crate::linalg::matmul_chk;
use crate::linalg::matmul_t;
use crate::linalg::matvec;
use crate::linalg::matvec_c;
use crate::linalg::matvec_chk;
use crate::linalg::matvec_t;
use crate::linalg::scale_c;
use crate::linalg::scale_chk;
use crate::linalg::v3;
use crate::linalg::vec_in;
use crate::linalg::Mat3I;
use crate::linalg::Matrix3x3;
use crate::linalg::Vec3I;
use crate::linalg::Vector3;
use crate::transfer::linear_to_srgb;
use crate::transfer::linear_to_srgb_spec;
use crate::transfer::srgb_to_linear;
use crate::transfer::srgb_to_linear_spec;
use crate::transfer::SRGB_DECODE_MAX;

verus! {

/// Entries of a stored color-space or adaptation matrix stay at or below
/// 100.0; construction rejects anything larger.
pub const MAT_LIM: i64 = 1_000_000_000;

/// Components of an XYZ value handed to a conversion stay at or below
/// 1000.0 in magnitude.
pub const XYZ_LIM: i64 = 10_000_000_000;

/// Chromaticity coordinates handed to construction stay at or below 100.0
/// in magnitude.
pub const CHROMA_LIM: i64 = 1_000_000_000;

/// Entries of a precomposed conversion matrix stay at or below 30000.0.
pub const CONV_LIM: i64 = 300_000_000_000;

/// Chromaticity values represent the hue of a color, irrespective of
/// brightness.
#[derive(Debug, Copy, Clone)]
pub struct Chromaticity {
    pub x: i64,
    pub y: i64,
}

impl Chromaticity {
    pub fn new(x: i64, y: i64) -> (r: Self)
        ensures
            r == (Chromaticity { x: x, y: y }),
    {
        Chromaticity { x, y }
    }
}

/// A tristimulus value in the CIE 1931 XYZ space.
#[derive(Debug, Copy, Clone, PartialEq, Eq, Structural)]
pub struct XYZ {
    pub X: i64,
    pub Y: i64,
    pub Z: i64,
}

/// An XYZ stimulus with an alpha channel; alpha passes through every
/// conversion unchanged.
#[derive(Debug, Copy, Clone, PartialEq, Eq, Structural)]
pub struct Color {
    pub X: i64,
    pub Y: i64,
    pub Z: i64,
    pub a: i64,
}

/// If the color space stores RGB values nonlinearly this specifies how to
/// make them linear.
#[derive(Debug, Copy, Clone, PartialEq, Eq, Structural)]
pub enum TransferFunction {
    /// Use the sRGB transfer function
    SRGB,
    /// The values are already linear
    Linear,
}

/// Why a color space or adaptation could not be constructed.
#[derive(Debug, Copy, Clone, PartialEq, Eq, Structural)]
pub enum ColorSpaceError {
    /// A primary's `y` chromaticity is zero, so it has no XYZ direction.
    DegenerateChromaticity,
    /// The primary matrix has determinant zero and cannot be inverted.
    SingularPrimaries,
    /// A white point's cone response has a zero component.
    DegenerateWhitePoint,
    /// An intermediate value left the representable fixed-point range.
    OutOfRange,
}

pub open spec fn xyz_v(w: XYZ) -> Vec3I {
    Vec3I { x: w.X as int, y: w.Y as int, z: w.Z as int }
}

pub open spec fn color_v(c: Color) -> Vec3I {
    Vec3I { x: c.X as int, y: c.Y as int, z: c.Z as int }
}

/// The D50 reference white, to which every stored matrix is relative.
pub open spec fn d50_v() -> Vec3I {
    Vec3I { x: 9_642_200, y: 10_000_000, z: 8_252_100 }
}

/// The Bradford cone-response matrix, a fixed constant.
pub open spec fn bradford_m() -> Mat3I {
    Mat3I {
        c0: Vec3I { x: 8_951_000, y: -7_502_000, z: 389_000 },
        c1: Vec3I { x: 2_664_000, y: 17_135_000, z: -685_000 },
        c2: Vec3I { x: -1_614_000, y: 367_000, z: 10_296_000 },
    }
}

/// The published inverse of the Bradford matrix, a fixed constant.
pub open spec fn bradford_inv_m() -> Mat3I {
    Mat3I {
        c0: Vec3I { x: 9_869_929, y: 4_323_053, z: -85_287 },
        c1: Vec3I { x: -1_470_543, y: 5_183_603, z: 400_428 },
        c2: Vec3I { x: 1_599_627, y: 492_912, z: 9_684_867 },
    }
}

/// "Horizon light", the white point ICC profiles are referenced to.
pub fn d50_white_point() -> (w: XYZ)
    ensures
        w == (XYZ { X: 9_642_200, Y: 10_000_000, Z: 8_252_100 }),
        xyz_v(w) == d50_v(),
{
    XYZ { X: 9_642_200, Y: 10_000_000, Z: 8_252_100 }
}

/// Average midday light in Western and Northern Europe.
pub fn d65_white_point() -> (w: XYZ)
    ensures
        w == (XYZ { X: 9_504_700, Y: 10_000_000, Z: 10_888_300 }),
{
    XYZ { X: 9_504_700, Y: 10_000_000, Z: 10_888_300 }
}

fn bradford() -> (m: Matrix3x3)
    ensures
        m3(m) == bradford_m(),
{
    Matrix3x3 {
        c0: Vector3 { x: 8_951_000, y: -7_502_000, z: 389_000 },
        c1: Vector3 { x: 2_664_000, y: 17_135_000, z: -685_000 },
        c2: Vector3 { x: -1_614_000, y: 367_000, z: 10_296_000 },
    }
}

fn bradford_inverse() -> (m: Matrix3x3)
    ensures
        m3(m) == bradford_inv_m(),
{
    Matrix3x3 {
        c0: Vector3 { x: 9_869_929, y: 4_323_053, z: -85_287 },
        c1: Vector3 { x: -1_470_543, y: 5_183_603, z: 400_428 },
        c2: Vector3 { x: 1_599_627, y: 492_912, z: 9_684_867 },
    }
}

fn vec_bounded(v: &Vector3, bound: i64) -> (r: bool)
    requires
        0 <= bound,
    ensures
        r == vec_in(v3(*v), bound as int),
{
    -bound <= v.x && v.x <= bound && -bound <= v.y && v.y <= bound && -bound <= v.z && v.z
        <= bound
}

fn mat_bounded(m: &Matrix3x3, bound: i64) -> (r: bool)
    requires
        0 <= bound,
    ensures
        r == mat_in(m3(*m), bound as int),
{
    vec_bounded(&m.c0, bound) && vec_bounded(&m.c1, bound) && vec_bounded(&m.c2, bound)
}

/// The Bradford adaptation matrix from one white point to another:
/// the inverse cone-response matrix, times the diagonal of cone-response
/// ratios, times the cone-response matrix.
pub open spec fn adaptation_matrix(src: Vec3I, dst: Vec3I) -> Result<Mat3I, ColorSpaceError> {
    match (matvec_c(bradford_m(), src), matvec_c(bradford_m(), dst)) {
        (Some(crs), Some(crd)) => if crs.x == 0 || crs.y == 0 || crs.z == 0 {
            Err(ColorSpaceError::DegenerateWhitePoint)
        } else {
            match (fx_div_c(crd.x, crs.x), fx_div_c(crd.y, crs.y), fx_div_c(crd.z, crs.z)) {
                (Some(rx), Some(ry), Some(rz)) => {
                    let diag = Mat3I {
                        c0: Vec3I { x: rx, y: 0, z: 0 },
                        c1: Vec3I { x: 0, y: ry, z: 0 },
                        c2: Vec3I { x: 0, y: 0, z: rz },
                    };
                    match matmul_c(bradford_inv_m(), diag) {
                        Some(bd) => match matmul_c(bd, bradford_m()) {
                            Some(m) => if mat_in(m, MAT_LIM as int) {
                                Ok(m)
                            } else {
                                Err(ColorSpaceError::OutOfRange)
                            },
                            None => Err(ColorSpaceError::OutOfRange),
                        },
                        None => Err(ColorSpaceError::OutOfRange),
                    }
                },
                _ => Err(ColorSpaceError::OutOfRange),
            }
        },
        _ => Err(ColorSpaceError::OutOfRange),
    }
}

/// Convert between XYZ values relative to different white points via the
/// Bradford cone-response transform.
#[derive(Debug, Clone, PartialEq)]
pub struct ChromaticAdaptation {
    inner_matrix: Matrix3x3,
}

impl ChromaticAdaptation {
    /// The stored adaptation matrix.
    pub closed spec fn matrix(&self) -> Mat3I {
        m3(self.inner_matrix)
    }

    /// Every constructed adaptation keeps its entries within [`MAT_LIM`].
    pub open spec fn wf(&self) -> bool {
        mat_in(self.matrix(), MAT_LIM as int)
    }

    pub fn new(source_white_point: XYZ, destination_white_point: XYZ) -> (r: Result<
        Self,
        ColorSpaceError,
    >)
        ensures
            (match (r, adaptation_matrix(xyz_v(source_white_point), xyz_v(destination_white_point))) {
                (Ok(ca), Ok(m)) => ca.matrix() == m && ca.wf(),
                (Err(e1), Err(e2)) => e1 == e2,
                _ => false,
            }),
    {
        let b = bradford();
        let binv = bradford_inverse();
        let src = Vector3 {
            x: source_white_point.X,
            y: source_white_point.Y,
            z: source_white_point.Z,
        };
        let dst = Vector3 {
            x: destination_white_point.X,
            y: destination_white_point.Y,
            z: destination_white_point.Z,
        };
        let crs = match matvec_chk(&b, &src) {
            Some(v) => v,
            None => {
                return Err(ColorSpaceError::OutOfRange);
            },
        };
        let crd = match matvec_chk(&b, &dst) {
            Some(v) => v,
            None => {
                return Err(ColorSpaceError::OutOfRange);
            },
        };
        if crs.x == 0 || crs.y == 0 || crs.z == 0 {
            return Err(ColorSpaceError::DegenerateWhitePoint);
        }
        let rx = match fx_div(crd.x, crs.x) {
            Some(v) => v,
            None => {
                return Err(ColorSpaceError::OutOfRange);
            },
        };
        let ry = match fx_div(crd.y, crs.y) {
            Some(v) => v,
            None => {
                return Err(ColorSpaceError::OutOfRange);
            },
        };
        let rz = match fx_div(crd.z, crs.z) {
            Some(v) => v,
            None => {
                return Err(ColorSpaceError::OutOfRange);
            },
        };
        let intermediate = Matrix3x3 {
            c0: Vector3 { x: rx, y: 0, z: 0 },
            c1: Vector3 { x: 0, y: ry, z: 0 },
            c2: Vector3 { x: 0, y: 0, z: rz },
        };
        let bd = match matmul_chk(&binv, &intermediate) {
            Some(m) => m,
            None => {
                return Err(ColorSpaceError::OutOfRange);
            },
        };
        let inner = match matmul_chk(&bd, &b) {
            Some(m) => m,
            None => {
                return Err(ColorSpaceError::OutOfRange);
            },
        };
        if !mat_bounded(&inner, MAT_LIM) {
            return Err(ColorSpaceError::OutOfRange);
        }
        Ok(ChromaticAdaptation { inner_matrix: inner })
    }

    /// Applies the adaptation matrix to an XYZ value.
    pub fn convert(&self, xyz: XYZ) -> (r: XYZ)
        requires
            self.wf(),
            vec_in(xyz_v(xyz), XYZ_LIM as int),
        ensures
            xyz_v(r) == matvec_t(self.matrix(), xyz_v(xyz)),
    {
        let v = Vector3 { x: xyz.X, y: xyz.Y, z: xyz.Z };
        let o = matvec(&self.inner_matrix, &v, Ghost(MAT_LIM as int), Ghost(XYZ_LIM as int));
        XYZ { X: o.x, Y: o.y, Z: o.z }
    }
}

/// The unscaled XYZ direction of a chromaticity: `(x/y, 1, (1-x-y)/y)`.
pub open spec fn chroma_vec(x: int, y: int) -> Option<Vec3I>
    recommends
        y != 0,
{
    match (fx_div_c(x, y), fx_div_c((SCALE as int) - x - y, y)) {
        (Some(a), Some(c)) => Some(Vec3I { x: a, y: SCALE as int, z: c }),
        _ => None,
    }
}

pub open spec fn bounded_matrices(to: Mat3I, from: Mat3I) -> Result<
    (Mat3I, Mat3I),
    ColorSpaceError,
> {
    if mat_in(to, MAT_LIM as int) && mat_in(from, MAT_LIM as int) {
        Ok((to, from))
    } else {
        Err(ColorSpaceError::OutOfRange)
    }
}

/// The construction algorithm: primaries to XYZ directions, scales from
/// the white point, and adaptation of the scaled primary matrix to D50
/// when the given white point is not already D50.
pub open spec fn color_space_matrices(
    rx: int,
    ry: int,
    gx: int,
    gy: int,
    bx: int,
    by: int,
    w: Vec3I,
) -> Result<(Mat3I, Mat3I), ColorSpaceError> {
    if ry == 0 || gy == 0 || by == 0 {
        Err(ColorSpaceError::DegenerateChromaticity)
    } else {
        match (chroma_vec(rx, ry), chroma_vec(gx, gy), chroma_vec(bx, by)) {
            (Some(r), Some(g), Some(b)) => {
                let m = Mat3I { c0: r, c1: g, c2: b };
                match det3_c(m) {
                    None => Err(ColorSpaceError::OutOfRange),
                    Some(d) => if d == 0 {
                        Err(ColorSpaceError::SingularPrimaries)
                    } else {
                        match inv3_c(m, d) {
                            None => Err(ColorSpaceError::OutOfRange),
                            Some(minv) => match matvec_c(minv, w) {
                                None => Err(ColorSpaceError::OutOfRange),
                                Some(s) => match (
                                    scale_c(r, s.x),
                                    scale_c(g, s.y),
                                    scale_c(b, s.z),
                                ) {
                                    (Some(sr), Some(sg), Some(sb)) => {
                                        let p = Mat3I { c0: sr, c1: sg, c2: sb };
                                        match det3_c(p) {
                                            None => Err(ColorSpaceError::OutOfRange),
                                            Some(dp) => if dp == 0 {
                                                Err(ColorSpaceError::SingularPrimaries)
                                            } else {
                                                match inv3_c(p, dp) {
                                                    None => Err(ColorSpaceError::OutOfRange),
                                                    Some(pinv) => if w == d50_v() {
                                                        bounded_matrices(p, pinv)
                                                    } else {
                                                        match (
                                                            adaptation_matrix(w, d50_v()),
                                                            adaptation_matrix(d50_v(), w),
                                                        ) {
                                                            (Ok(fwd), Ok(bwd)) => match (
                                                                matmul_c(fwd, p),
                                                                matmul_c(pinv, bwd),
                                                            ) {
                                                                (Some(to), Some(from)) => bounded_matrices(
                                                                    to,
                                                                    from,
                                                                ),
                                                                _ => Err(
                                                                    ColorSpaceError::OutOfRange,
                                                                ),
                                                            },
                                                            (Err(e), _) => Err(e),
                                                            (_, Err(e)) => Err(e),
                                                        }
                                                    },
                                                }
                                            },
                                        }
                                    },
                                    _ => Err(ColorSpaceError::OutOfRange),
                                },
                            },
                        }
                    },
                }
            },
            _ => Err(ColorSpaceError::OutOfRange),
        }
    }
}

fn chroma_vec_exec(c: &Chromaticity) -> (r: Option<Vector3>)
    requires
        c.y != 0,
        iabs(c.x as int) <= CHROMA_LIM as int,
        iabs(c.y as int) <= CHROMA_LIM as int,
    ensures
        crate::linalg::opt_v3(r, chroma_vec(c.x as int, c.y as int)),
{
    let num: i64 = SCALE - c.x - c.y;
    match (fx_div(c.x, c.y), fx_div(num, c.y)) {
        (Some(a), Some(z)) => Some(Vector3 { x: a, y: SCALE, z: z }),
        _ => None,
    }
}

/// What the transfer function makes of a stored (nonlinear) component.
pub open spec fn linearize(tf: TransferFunction, u: int) -> int {
    match tf {
        TransferFunction::SRGB => srgb_to_linear_spec(u),
        TransferFunction::Linear => u,
    }
}

/// What the transfer function makes of a linear-light component.
pub open spec fn delinearize(tf: TransferFunction, u: int) -> int {
    match tf {
        TransferFunction::SRGB => linear_to_srgb_spec(u),
        TransferFunction::Linear => u,
    }
}

/// The XYZ stimulus a color space assigns to an RGB triple.
pub open spec fn encoded_xyz(to: Mat3I, tf: TransferFunction, r: int, g: int, b: int) -> Vec3I {
    matvec_t(to, Vec3I { x: linearize(tf, r), y: linearize(tf, g), z: linearize(tf, b) })
}

/// The RGB triple a color space assigns to an XYZ stimulus, before any
/// clipping.
pub open spec fn decoded_rgb(from: Mat3I, tf: TransferFunction, c: Vec3I) -> Vec3I {
    let lin = matvec_t(from, c);
    Vec3I { x: delinearize(tf, lin.x), y: delinearize(tf, lin.y), z: delinearize(tf, lin.z) }
}

/// Clamps a component to the unit interval; used only by the clipped
/// decoding path.
pub open spec fn clamp01(u: int) -> int {
    if u < 0 {
        0
    } else if u > SCALE as int {
        SCALE as int
    } else {
        u
    }
}

fn clamp01_exec(u: i64) -> (r: i64)
    ensures
        r as int == clamp01(u as int),
{
    if u < 0 {
        0
    } else if u > SCALE {
        SCALE
    } else {
        u
    }
}

/// The scaled unit-interval value of an 8-bit channel.
pub open spec fn byte_unit(v: int) -> int {
    tdiv(v * (SCALE as int), 255)
}

fn byte_unit_exec(v: u32) -> (r: i64)
    requires
        v <= 255,
    ensures
        r as int == byte_unit(v as int),
        0 <= r <= SCALE,
{
    let q: u64 = (v as u64) * 10_000_000 / 255;
    proof {
        assert(q as int == tdiv((v as int) * (SCALE as int), 255));
        assert(q as int <= 255int * 10_000_000int / 255int);
    }
    q as i64
}

/// An RGB color space expressed in relation to the CIE XYZ color space.
#[derive(Debug, Clone, PartialEq)]
pub struct ColorSpace {
    to_XYZ: Matrix3x3,
    from_XYZ: Matrix3x3,
    transfer_function: TransferFunction,
}

impl ColorSpace {
    /// The RGB-to-XYZ basis-change matrix, relative to D50.
    pub closed spec fn to_m(&self) -> Mat3I {
        m3(self.to_XYZ)
    }

    /// The XYZ-to-RGB basis-change matrix, relative to D50.
    pub closed spec fn from_m(&self) -> Mat3I {
        m3(self.from_XYZ)
    }

    pub closed spec fn tf(&self) -> TransferFunction {
        self.transfer_function
    }

    /// Every constructed color space keeps both matrices within
    /// [`MAT_LIM`].
    pub open spec fn wf(&self) -> bool {
        mat_in(self.to_m(), MAT_LIM as int) && mat_in(self.from_m(), MAT_LIM as int)
    }

    /// Primaries are specified as xy chromaticity values, the white point
    /// in XYZ space. The derived matrices are stored relative to D50
    /// whatever white point is given.
    pub fn new(
        red_primary: Chromaticity,
        green_primary: Chromaticity,
        blue_primary: Chromaticity,
        white_point: XYZ,
        transfer_function: TransferFunction,
    ) -> (r: Result<ColorSpace, ColorSpaceError>)
        requires
            iabs(red_primary.x as int) <= CHROMA_LIM as int,
            iabs(red_primary.y as int) <= CHROMA_LIM as int,
            iabs(green_primary.x as int) <= CHROMA_LIM as int,
            iabs(green_primary.y as int) <= CHROMA_LIM as int,
            iabs(blue_primary.x as int) <= CHROMA_LIM as int,
            iabs(blue_primary.y as int) <= CHROMA_LIM as int,
        ensures
            (match (r, color_space_matrices(
                red_primary.x as int,
                red_primary.y as int,
                green_primary.x as int,
                green_primary.y as int,
                blue_primary.x as int,
                blue_primary.y as int,
                xyz_v(white_point),
            )) {
                (Ok(cs), Ok(ms)) => cs.to_m() == ms.0 && cs.from_m() == ms.1 && cs.tf()
                    == transfer_function && cs.wf(),
                (Err(e1), Err(e2)) => e1 == e2,
                _ => false,
            }),
    {
        if red_primary.y == 0 || green_primary.y == 0 || blue_primary.y == 0 {
            return Err(ColorSpaceError::DegenerateChromaticity);
        }
        let r = match chroma_vec_exec(&red_primary) {
            Some(v) => v,
            None => {
                return Err(ColorSpaceError::OutOfRange);
            },
        };
        let g = match chroma_vec_exec(&green_primary) {
            Some(v) => v,
            None => {
                return Err(ColorSpaceError::OutOfRange);
            },
        };
        let b = match chroma_vec_exec(&blue_primary) {
            Some(v) => v,
            None => {
                return Err(ColorSpaceError::OutOfRange);
            },
        };
        let m = Matrix3x3 { c0: r, c1: g, c2: b };
        let d = match det3_chk(&m) {
            Some(v) => v,
            None => {
                return Err(ColorSpaceError::OutOfRange);
            },
        };
        if d == 0 {
            return Err(ColorSpaceError::SingularPrimaries);
        }
        let minv = match inv3_chk(&m, d) {
            Some(v) => v,
            None => {
                return Err(ColorSpaceError::OutOfRange);
            },
        };
        let wv = Vector3 { x: white_point.X, y: white_point.Y, z: white_point.Z };
        let s = match matvec_chk(&minv, &wv) {
            Some(v) => v,
            None => {
                return Err(ColorSpaceError::OutOfRange);
            },
        };
        let sr = match scale_chk(&r, s.x) {
            Some(v) => v,
            None => {
                return Err(ColorSpaceError::OutOfRange);
            },
        };
        let sg = match scale_chk(&g, s.y) {
            Some(v) => v,
            None => {
                return Err(ColorSpaceError::OutOfRange);
            },
        };
        let sb = match scale_chk(&b, s.z) {
            Some(v) => v,
            None => {
                return Err(ColorSpaceError::OutOfRange);
            },
        };
        let p = Matrix3x3 { c0: sr, c1: sg, c2: sb };
        let dp = match det3_chk(&p) {
            Some(v) => v,
            None => {
                return Err(ColorSpaceError::OutOfRange);
            },
        };
        if dp == 0 {
            return Err(ColorSpaceError::SingularPrimaries);
        }
        let pinv = match inv3_chk(&p, dp) {
            Some(v) => v,
            None => {
                return Err(ColorSpaceError::OutOfRange);
            },
        };
        let d50 = d50_white_point();
        let (to, from) = if white_point == d50 {
            (p, pinv)
        } else {
            let fwd = match ChromaticAdaptation::new(white_point, d50) {
                Ok(ca) => ca.inner_matrix,
                Err(e) => {
                    return Err(e);
                },
            };
            let bwd = match ChromaticAdaptation::new(d50, white_point) {
                Ok(ca) => ca.inner_matrix,
                Err(e) => {
                    return Err(e);
                },
            };
            let to = match matmul_chk(&fwd, &p) {
                Some(v) => v,
                None => {
                    return Err(ColorSpaceError::OutOfRange);
                },
            };
            let from = match matmul_chk(&pinv, &bwd) {
                Some(v) => v,
                None => {
                    return Err(ColorSpaceError::OutOfRange);
                },
            };
            (to, from)
        };
        if !mat_bounded(&to, MAT_LIM) || !mat_bounded(&from, MAT_LIM) {
            return Err(ColorSpaceError::OutOfRange);
        }
        Ok(ColorSpace { to_XYZ: to, from_XYZ: from, transfer_function })
    }

    /// The popular sRGB color space: sRGB primaries, the D65 white point
    /// and the sRGB transfer function.
    pub fn srgb() -> (r: Result<ColorSpace, ColorSpaceError>)
        ensures
            (match (r, color_space_matrices(
                6_400_000,
                3_300_000,
                3_000_000,
                6_000_000,
                1_500_000,
                600_000,
                Vec3I { x: 9_504_700, y: 10_000_000, z: 10_888_300 },
            )) {
                (Ok(cs), Ok(ms)) => cs.to_m() == ms.0 && cs.from_m() == ms.1 && cs.tf()
                    == TransferFunction::SRGB && cs.wf(),
                (Err(e1), Err(e2)) => e1 == e2,
                _ => false,
            }),
    {
        ColorSpace::new(
            Chromaticity { x: 6_400_000, y: 3_300_000 },
            Chromaticity { x: 3_000_000, y: 6_000_000 },
            Chromaticity { x: 1_500_000, y: 600_000 },
            d65_white_point(),
            TransferFunction::SRGB,
        )
    }

    /// The same space as [`ColorSpace::srgb`] with a linear transfer
    /// function.
    pub fn srgb_linear() -> (r: Result<ColorSpace, ColorSpaceError>)
        ensures
            (match (r, color_space_matrices(
                6_400_000,
                3_300_000,
                3_000_000,
                6_000_000,
                1_500_000,
                600_000,
                Vec3I { x: 9_504_700, y: 10_000_000, z: 10_888_300 },
            )) {
                (Ok(cs), Ok(ms)) => cs.to_m() == ms.0 && cs.from_m() == ms.1 && cs.tf()
                    == TransferFunction::Linear && cs.wf(),
                (Err(e1), Err(e2)) => e1 == e2,
                _ => false,
            }),
    {
        ColorSpace::new(
            Chromaticity { x: 6_400_000, y: 3_300_000 },
            Chromaticity { x: 3_000_000, y: 6_000_000 },
            Chromaticity { x: 1_500_000, y: 600_000 },
            d65_white_point(),
            TransferFunction::Linear,
        )
    }

    /// Creates a color with the specified RGB values for the color space.
    pub fn new_color(&self, r: i64, g: i64, b: i64, a: i64) -> (c: Color)
        requires
            self.wf(),
            iabs(r as int) <= SRGB_DECODE_MAX as int,
            iabs(g as int) <= SRGB_DECODE_MAX as int,
            iabs(b as int) <= SRGB_DECODE_MAX as int,
        ensures
            color_v(c) == encoded_xyz(self.to_m(), self.tf(), r as int, g as int, b as int),
            c.a == a,
    {
        let lin = match self.transfer_function {
            TransferFunction::SRGB => Vector3 {
                x: srgb_to_linear(r),
                y: srgb_to_linear(g),
                z: srgb_to_linear(b),
            },
            TransferFunction::Linear => Vector3 { x: r, y: g, z: b },
        };
        let o = matvec(&self.to_XYZ, &lin, Ghost(MAT_LIM as int), Ghost(14_000_000_000int));
        Color { X: o.x, Y: o.y, Z: o.z, a }
    }

    /// Creates a new color from the hex values of a number.
    pub fn new_color_from_hex(&self, hex: u32, alpha: i64) -> (c: Color)
        requires
            self.wf(),
        ensures
            color_v(c) == encoded_xyz(
                self.to_m(),
                self.tf(),
                byte_unit(((hex >> 16) & 0xFF) as int),
                byte_unit(((hex >> 8) & 0xFF) as int),
                byte_unit((hex & 0xFF) as int),
            ),
            c.a == alpha,
    {
        proof {
            assert((hex >> 16) & 0xFF < 256 && (hex >> 8) & 0xFF < 256 && hex & 0xFF < 256)
                by (bit_vector);
        }
        let r = byte_unit_exec((hex >> 16) & 0xFF);
        let g = byte_unit_exec((hex >> 8) & 0xFF);
        let b = byte_unit_exec(hex & 0xFF);
        self.new_color(r, g, b, alpha)
    }

    /// Creates a new color from byte channels; alpha is transparency and
    /// is rescaled to the unit interval like the other channels.
    pub fn new_color_from_bytes(&self, r: u8, b: u8, g: u8, alpha: u8) -> (c: Color)
        requires
            self.wf(),
        ensures
            color_v(c) == encoded_xyz(
                self.to_m(),
                self.tf(),
                byte_unit(r as int),
                byte_unit(g as int),
                byte_unit(b as int),
            ),
            c.a as int == byte_unit(alpha as int),
    {
        let rr = byte_unit_exec(r as u32);
        let gg = byte_unit_exec(g as u32);
        let bb = byte_unit_exec(b as u32);
        let aa = byte_unit_exec(alpha as u32);
        self.new_color(rr, gg, bb, aa)
    }

    /// Gets the RGBA values for the color as expressed in this color
    /// space. RGB values outside of 0.0 to 1.0 will be clipped; alpha is
    /// never clipped.
    pub fn color_to_rgba(&self, color: &Color) -> (r: (i64, i64, i64, i64))
        requires
            self.wf(),
            vec_in(color_v(*color), XYZ_LIM as int),
        ensures
            r.0 as int == clamp01(decoded_rgb(self.from_m(), self.tf(), color_v(*color)).x),
            r.1 as int == clamp01(decoded_rgb(self.from_m(), self.tf(), color_v(*color)).y),
            r.2 as int == clamp01(decoded_rgb(self.from_m(), self.tf(), color_v(*color)).z),
            r.3 == color.a,
    {
        let (rr, gg, bb, aa) = self.color_to_rgba_unclipped(color);
        (clamp01_exec(rr), clamp01_exec(gg), clamp01_exec(bb), aa)
    }

    /// Gets the RGBA values for the color as expressed in this color
    /// space. RGB values are allowed to go outside the 0.0 to 1.0 range;
    /// the transfer function (if not `None`) is mirrored for values less
    /// than 0.0.
    pub fn color_to_rgba_unclipped(&self, color: &Color) -> (r: (i64, i64, i64, i64))
        requires
            self.wf(),
            vec_in(color_v(*color), XYZ_LIM as int),
        ensures
            r.0 as int == decoded_rgb(self.from_m(), self.tf(), color_v(*color)).x,
            r.1 as int == decoded_rgb(self.from_m(), self.tf(), color_v(*color)).y,
            r.2 as int == decoded_rgb(self.from_m(), self.tf(), color_v(*color)).z,
            r.3 == color.a,
    {
        let v = Vector3 { x: color.X, y: color.Y, z: color.Z };
        let lin = matvec(&self.from_XYZ, &v, Ghost(MAT_LIM as int), Ghost(XYZ_LIM as int));
        match self.transfer_function {
            TransferFunction::SRGB => (
                linear_to_srgb(lin.x),
                linear_to_srgb(lin.y),
                linear_to_srgb(lin.z),
                color.a,
            ),
            TransferFunction::Linear => (lin.x, lin.y, lin.z, color.a),
        }
    }

    pub fn to_xyz_matrix(&self) -> (m: Matrix3x3)
        ensures
            m3(m) == self.to_m(),
    {
        self.to_XYZ
    }

    pub fn from_xyz_matrix(&self) -> (m: Matrix3x3)
        ensures
            m3(m) == self.from_m(),
    {
        self.from_XYZ
    }

    pub fn transfer_function(&self) -> (t: TransferFunction)
        ensures
            t == self.tf(),
    {
        self.transfer_function
    }
}

/// If frequent color space conversions are to be performed, use this: the
/// two basis changes are precomposed into one matrix.
///
/// The converter works purely on linear values: it deliberately bypasses
/// both color spaces' transfer functions, so callers must hand it
/// linear-light triples.
pub struct ColorSpaceConverter {
    conversion_matrix: Matrix3x3,
}

impl ColorSpaceConverter {
    /// The precomposed matrix: `to.from_XYZ x from.to_XYZ`.
    pub closed spec fn matrix(&self) -> Mat3I {
        m3(self.conversion_matrix)
    }

    pub open spec fn wf(&self) -> bool {
        mat_in(self.matrix(), CONV_LIM as int)
    }

    pub fn new(from: &ColorSpace, to: &ColorSpace) -> (r: Self)
        requires
            from.wf(),
            to.wf(),
        ensures
            r.matrix() == matmul_t(to.from_m(), from.to_m()),
            r.wf(),
    {
        let m = matmul(&to.from_xyz_matrix(), &from.to_xyz_matrix(), Ghost(MAT_LIM as int), Ghost(MAT_LIM as int));
        ColorSpaceConverter { conversion_matrix: m }
    }

    /// Applies the precomposed matrix to a raw linear triple. The transfer
    /// functions of both color spaces are ignored by design.
    pub fn convert_color(&self, color: &(i64, i64, i64)) -> (r: (i64, i64, i64))
        requires
            self.wf(),
            iabs(color.0 as int) <= XYZ_LIM as int,
            iabs(color.1 as int) <= XYZ_LIM as int,
            iabs(color.2 as int) <= XYZ_LIM as int,
        ensures
            r.0 as int == matvec_t(self.matrix(), Vec3I { x: color.0 as int, y: color.1 as int, z: color.2 as int }).x,
            r.1 as int == matvec_t(self.matrix(), Vec3I { x: color.0 as int, y: color.1 as int, z: color.2 as int }).y,
            r.2 as int == matvec_t(self.matrix(), Vec3I { x: color.0 as int, y: color.1 as int, z: color.2 as int }).z,
    {
        let v = Vector3 { x: color.0, y: color.1, z: color.2 };
        let o = matvec(&self.conversion_matrix, &v, Ghost(CONV_LIM as int), Ghost(XYZ_LIM as int));
        (o.x, o.y, o.z)
    }
}

/// Adapting a white point to itself yields a matrix that does not depend
/// on the white point at all: every cone-response ratio is exactly one, so
/// the result is the composition of the two fixed Bradford constants.
pub proof fn lemma_identity_adaptation(w1: Vec3I, w2: Vec3I, c1: Vec3I, c2: Vec3I)
    requires
        matvec_c(bradford_m(), w1) == Some(c1),
        c1.x != 0 && c1.y != 0 && c1.z != 0,
        matvec_c(bradford_m(), w2) == Some(c2),
        c2.x != 0 && c2.y != 0 && c2.z != 0,
    ensures
        adaptation_matrix(w1, w1) == adaptation_matrix(w2, w2),
{
    lemma_fx_div_self(c1.x);
    lemma_fx_div_self(c1.y);
    lemma_fx_div_self(c1.z);
    lemma_fx_div_self(c2.x);
    lemma_fx_div_self(c2.y);
    lemma_fx_div_self(c2.z);
}

/// Dividing a nonzero scalar by itself yields exactly one.
pub proof fn lemma_fx_div_self(c: int)
    requires
        c != 0,
    ensures
        fx_div_c(c, c) == Some(SCALE as int),
{
    if c > 0 {
        vstd::arithmetic::div_mod::lemma_div_multiples_vanish(SCALE as int, c);
        assert(iabs(c * (SCALE as int)) == c * (SCALE as int));
        assert(c * (SCALE as int) == c * (SCALE as int));
        assert(tdiv(c * (SCALE as int), c) == (c * (SCALE as int)) / c);
        assert((c * (SCALE as int)) / c == SCALE as int);
    } else {
        let cp = -c;
        vstd::arithmetic::div_mod::lemma_div_multiples_vanish(SCALE as int, cp);
        assert(iabs(c * (SCALE as int)) == cp * (SCALE as int));
        assert(tdiv(c * (SCALE as int), c) == (cp * (SCALE as int)) / cp);
        assert((cp * (SCALE as int)) / cp == SCALE as int);
    }
}

/// The converter consults only the two matrices: two pairs of spaces with
/// the same matrices produce the same conversion, whatever their transfer
/// functions; the transfer functions are bypassed by design.
pub proof fn lemma_converter_ignores_transfer(
    a: ColorSpace,
    b: ColorSpace,
    a2: ColorSpace,
    b2: ColorSpace,
    v: Vec3I,
)
    requires
        a.to_m() == a2.to_m(),
        b.from_m() == b2.from_m(),
    ensures
        matvec_t(matmul_t(b.from_m(), a.to_m()), v) == matvec_t(
            matmul_t(b2.from_m(), a2.to_m()),
            v,
        ),
{
}

/// Clipping sends each component into the unit interval, leaves a
/// component already there unchanged, and touches nothing else.
pub proof fn lemma_clamp01(u: int)
    ensures
        0 <= clamp01(u) <= SCALE as int,
        0 <= u <= SCALE as int ==> clamp01(u) == u,
        u < 0 ==> clamp01(u) == 0,
        u > SCALE as int ==> clamp01(u) == SCALE as int,
{
}

} // verus!
