use color_space::fixed::SCALE;
use color_space::linalg::Matrix3x3;
use color_space::space::d50_white_point;
use color_space::space::d65_white_point;
use color_space::Chromaticity;
use color_space::ChromaticAdaptation;
use color_space::Color;
use color_space::ColorSpace;
use color_space::ColorSpaceConverter;
use color_space::ColorSpaceError;
use color_space::TransferFunction;
use color_space::XYZ;

// All values are fixed-point with seven decimal places: SCALE is 1.0.

fn srgb_space(tf: TransferFunction) -> ColorSpace {
    ColorSpace::new(
        Chromaticity::new(6_400_000, 3_300_000),
        Chromaticity::new(3_000_000, 6_000_000),
        Chromaticity::new(1_500_000, 600_000),
        d65_white_point(),
        tf,
    )
    .unwrap()
}

fn col(v: &color_space::linalg::Vector3) -> [i64; 3] {
    [v.x, v.y, v.z]
}

// The same truncating matrix application the library specifies: each
// product is truncated to the scale, then the three terms are summed.
fn apply(m: &Matrix3x3, v: [i64; 3]) -> [i64; 3] {
    let c = [col(&m.c0), col(&m.c1), col(&m.c2)];
    let mut r = [0i64; 3];
    for i in 0..3 {
        let mut s: i128 = 0;
        for k in 0..3 {
            s += (c[k][i] as i128) * (v[k] as i128) / (SCALE as i128);
        }
        r[i] = s as i64;
    }
    r
}

#[test]
fn srgb_fixture_matches_published_matrix() {
    // The published sRGB to-XYZ matrix (relative to D50), within 5e-6.
    let cs = srgb_space(TransferFunction::SRGB);
    let to = cs.to_xyz_matrix();
    let expected = [
        [4_360_747i64, 2_225_045, 139_322],
        [3_850_649, 7_168_786, 971_045],
        [1_430_804, 606_169, 7_141_733],
    ];
    let got = [col(&to.c0), col(&to.c1), col(&to.c2)];
    for c in 0..3 {
        for i in 0..3 {
            assert!(
                (got[c][i] - expected[c][i]).abs() <= 50,
                "entry ({c},{i}) = {} expected {}",
                got[c][i],
                expected[c][i]
            );
        }
    }
}

#[test]
fn encode_decode_round_trip() {
    // decode_clipped(encode(r, g, b, a)) returns (r, g, b, a) within 1e-5
    // for channels in [0, 1]; alpha comes back exactly.
    let cs = srgb_space(TransferFunction::SRGB);
    let cases = [
        (SCALE, 0, 0, SCALE),
        (5_000_000, 2_500_000, 7_500_000, 3_000_000),
        (123_456, 9_999_999, 5, 0),
        (0, 0, 0, SCALE),
    ];
    for (r, g, b, a) in cases {
        let color = cs.new_color(r, g, b, a);
        let (rr, gg, bb, aa) = cs.color_to_rgba(&color);
        assert!((rr - r).abs() <= 100, "r: {rr} vs {r}");
        assert!((gg - g).abs() <= 100, "g: {gg} vs {g}");
        assert!((bb - b).abs() <= 100, "b: {bb} vs {b}");
        assert_eq!(aa, a);
    }
}

#[test]
fn round_trip_linear_space() {
    let cs = srgb_space(TransferFunction::Linear);
    let color = cs.new_color(2_000_000, 9_000_000, 4_000_000, 1_234_567);
    let (rr, gg, bb, aa) = cs.color_to_rgba(&color);
    assert!((rr - 2_000_000).abs() <= 100);
    assert!((gg - 9_000_000).abs() <= 100);
    assert!((bb - 4_000_000).abs() <= 100);
    assert_eq!(aa, 1_234_567);
}

#[test]
fn hex_round_trip_red() {
    // 0xFF0000 with alpha 1.0 decodes back to (1, 0, 0, 1) closely.
    let cs = srgb_space(TransferFunction::SRGB);
    let color = cs.new_color_from_hex(0xFF0000, SCALE);
    let (r, g, b, a) = cs.color_to_rgba(&color);
    assert!((r - SCALE).abs() <= 100, "r = {r}");
    assert!(g.abs() <= 100, "g = {g}");
    assert!(b.abs() <= 100, "b = {b}");
    assert_eq!(a, SCALE);
}

#[test]
fn bytes_constructor_scales_channels() {
    // The byte constructor's parameters come in the order r, b, g, alpha.
    let cs = srgb_space(TransferFunction::SRGB);
    let color = cs.new_color_from_bytes(255, 0, 0, 255);
    let (r, g, b, a) = cs.color_to_rgba(&color);
    assert!((r - SCALE).abs() <= 100);
    assert!(g.abs() <= 100);
    assert!(b.abs() <= 100);
    assert_eq!(a, SCALE);
}

#[test]
fn alpha_passes_through_out_of_range() {
    // Alpha is never touched, not even values far outside [0, 1].
    let cs = srgb_space(TransferFunction::SRGB);
    let color = cs.new_color(5_000_000, 5_000_000, 5_000_000, -123_456_789);
    assert_eq!(color.a, -123_456_789);
    let (_, _, _, a) = cs.color_to_rgba(&color);
    assert_eq!(a, -123_456_789);
    let (_, _, _, au) = cs.color_to_rgba_unclipped(&color);
    assert_eq!(au, -123_456_789);
}

#[test]
fn clipping_contract() {
    // The unclipped decoding may leave [0, 1]; the clipped one clamps each
    // channel independently and exactly to the unclipped value otherwise.
    let cs = srgb_space(TransferFunction::SRGB);
    let color = Color { X: -1_000_000, Y: 5_000_000, Z: 20_000_000, a: 42 };
    let (ru, gu, bu, au) = cs.color_to_rgba_unclipped(&color);
    let (rc, gc, bc, ac) = cs.color_to_rgba(&color);
    assert!(ru < 0 || gu < 0 || bu < 0 || ru > SCALE || gu > SCALE || bu > SCALE);
    let clamp = |u: i64| u.max(0).min(SCALE);
    assert_eq!(rc, clamp(ru));
    assert_eq!(gc, clamp(gu));
    assert_eq!(bc, clamp(bu));
    assert_eq!(au, 42);
    assert_eq!(ac, 42);
}

#[test]
fn identity_adaptation_is_identity() {
    // Adapting a white point to itself changes nothing, whatever the
    // white point.
    for w in [
        d65_white_point(),
        d50_white_point(),
        XYZ { X: 3_333_333, Y: 7_777_777, Z: 1_234_567 },
    ] {
        let ca = ChromaticAdaptation::new(w, w).unwrap();
        let xyz = XYZ { X: 5_000_000, Y: 3_000_000, Z: 2_000_000 };
        let out = ca.convert(xyz);
        assert!((out.X - xyz.X).abs() <= 5, "X = {}", out.X);
        assert!((out.Y - xyz.Y).abs() <= 5, "Y = {}", out.Y);
        assert!((out.Z - xyz.Z).abs() <= 5, "Z = {}", out.Z);
    }
}

#[test]
fn adaptation_round_trip_d50_d65() {
    let fwd = ChromaticAdaptation::new(d65_white_point(), d50_white_point()).unwrap();
    let bwd = ChromaticAdaptation::new(d50_white_point(), d65_white_point()).unwrap();
    let xyz = XYZ { X: 4_123_456, Y: 6_000_000, Z: 1_500_000 };
    let there = fwd.convert(xyz);
    let back = bwd.convert(there);
    assert!((back.X - xyz.X).abs() <= 20);
    assert!((back.Y - xyz.Y).abs() <= 20);
    assert!((back.Z - xyz.Z).abs() <= 20);
}

#[test]
fn converter_equals_precomposed_matrices() {
    // The converter applies exactly destination.from_XYZ x source.to_XYZ.
    let a = srgb_space(TransferFunction::SRGB);
    let b = ColorSpace::new(
        Chromaticity::new(6_800_000, 3_200_000),
        Chromaticity::new(2_650_000, 6_900_000),
        Chromaticity::new(1_500_000, 600_000),
        d50_white_point(),
        TransferFunction::Linear,
    )
    .unwrap();
    let conv = ColorSpaceConverter::new(&a, &b);
    let v = (2_000_000i64, 3_000_000i64, 4_000_000i64);
    let got = conv.convert_color(&v);

    let bf = b.from_xyz_matrix();
    let at = a.to_xyz_matrix();
    let product = Matrix3x3 {
        c0: vec3(apply(&bf, col(&at.c0))),
        c1: vec3(apply(&bf, col(&at.c1))),
        c2: vec3(apply(&bf, col(&at.c2))),
    };
    let expected = apply(&product, [v.0, v.1, v.2]);
    assert_eq!([got.0, got.1, got.2], expected);
}

fn vec3(a: [i64; 3]) -> color_space::linalg::Vector3 {
    color_space::linalg::Vector3 { x: a[0], y: a[1], z: a[2] }
}

#[test]
fn converter_ignores_transfer_functions() {
    // Two pairs of spaces with the same matrices but different transfer
    // functions convert identically: the fast path is purely linear.
    let a_srgb = srgb_space(TransferFunction::SRGB);
    let a_lin = srgb_space(TransferFunction::Linear);
    let c1 = ColorSpaceConverter::new(&a_srgb, &a_lin);
    let c2 = ColorSpaceConverter::new(&a_lin, &a_srgb);
    let v = (1_234_567i64, 7_654_321i64, 555_555i64);
    assert_eq!(c1.convert_color(&v), c2.convert_color(&v));
}

#[test]
fn zero_chromaticity_y_is_rejected() {
    let r = ColorSpace::new(
        Chromaticity::new(6_400_000, 0),
        Chromaticity::new(3_000_000, 6_000_000),
        Chromaticity::new(1_500_000, 600_000),
        d65_white_point(),
        TransferFunction::SRGB,
    );
    assert_eq!(r.unwrap_err(), ColorSpaceError::DegenerateChromaticity);
}

#[test]
fn collinear_primaries_are_rejected() {
    let p = Chromaticity::new(3_000_000, 3_000_000);
    let r = ColorSpace::new(p, p, p, d65_white_point(), TransferFunction::SRGB);
    assert_eq!(r.unwrap_err(), ColorSpaceError::SingularPrimaries);
}

#[test]
fn zero_white_point_is_rejected() {
    let zero = XYZ { X: 0, Y: 0, Z: 0 };
    let r = ChromaticAdaptation::new(zero, d65_white_point());
    assert_eq!(r.unwrap_err(), ColorSpaceError::DegenerateWhitePoint);
}

#[test]
fn oversized_white_point_is_rejected() {
    let huge = XYZ { X: i64::MAX, Y: i64::MAX, Z: i64::MAX };
    let one = XYZ { X: SCALE, Y: SCALE, Z: SCALE };
    let r = ChromaticAdaptation::new(one, huge);
    assert_eq!(r.unwrap_err(), ColorSpaceError::OutOfRange);
}

#[test]
fn d50_space_skips_adaptation() {
    // With the D50 white point the primaries matrix is stored as-is: the
    // to-XYZ columns each sum (in Y) to the white point's Y.
    let cs = ColorSpace::new(
        Chromaticity::new(6_400_000, 3_300_000),
        Chromaticity::new(3_000_000, 6_000_000),
        Chromaticity::new(1_500_000, 600_000),
        d50_white_point(),
        TransferFunction::Linear,
    )
    .unwrap();
    let to = cs.to_xyz_matrix();
    let y_sum = to.c0.y + to.c1.y + to.c2.y;
    assert!((y_sum - SCALE).abs() <= 10, "Y row sums to {y_sum}");
    let white = cs.new_color(SCALE, SCALE, SCALE, SCALE);
    let d50 = d50_white_point();
    assert!((white.X - d50.X).abs() <= 20);
    assert!((white.Y - d50.Y).abs() <= 20);
    assert!((white.Z - d50.Z).abs() <= 20);
}

#[test]
fn predefined_srgb_spaces() {
    let named = ColorSpace::srgb().unwrap();
    let built = srgb_space(TransferFunction::SRGB);
    assert_eq!(named, built);
    let linear = ColorSpace::srgb_linear().unwrap();
    assert_eq!(linear.to_xyz_matrix(), named.to_xyz_matrix());
    assert_eq!(linear.from_xyz_matrix(), named.from_xyz_matrix());
    assert_eq!(linear.transfer_function(), TransferFunction::Linear);
}

#[test]
fn hex_and_bytes_constructors_agree() {
    // 0x123456 packs r = 0x12, g = 0x34, b = 0x56; the byte constructor
    // takes them in the order r, b, g.
    let cs = srgb_space(TransferFunction::SRGB);
    let from_hex = cs.new_color_from_hex(0x123456, SCALE);
    let from_bytes = cs.new_color_from_bytes(0x12, 0x56, 0x34, 255);
    assert_eq!((from_hex.X, from_hex.Y, from_hex.Z), (from_bytes.X, from_bytes.Y, from_bytes.Z));
    assert_eq!(from_hex.a, SCALE);
    assert_eq!(from_bytes.a, SCALE);
}
