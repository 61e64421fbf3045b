use color_space::fixed::SCALE;
use color_space::transfer::linear_to_srgb;
use color_space::transfer::srgb_to_linear;

// All values are fixed-point with seven decimal places: SCALE is 1.0.

#[test]
fn decode_linear_branch_exact() {
    // 0.04045 / 12.92 = 0.0031308
    assert_eq!(srgb_to_linear(404_500), 31_308);
    // 0.02 / 12.92 = 0.0015479...
    assert_eq!(srgb_to_linear(200_000), 15_479);
    assert_eq!(srgb_to_linear(0), 0);
}

#[test]
fn encode_linear_branch_exact() {
    // 0.0031308 * 12.92 = 0.04044993..., truncated
    assert_eq!(linear_to_srgb(31_308), 404_499);
    assert_eq!(linear_to_srgb(1_000), 12_920);
    assert_eq!(linear_to_srgb(0), 0);
}

#[test]
fn decode_power_branch_exact() {
    // 0.5 decodes to 0.2140410
    assert_eq!(srgb_to_linear(5_000_000), 2_140_410);
    // 1.0 decodes to (1.055/1.055)^2.4 = 1.0, up to truncation
    let one = srgb_to_linear(SCALE);
    assert!((one - SCALE).abs() <= 20, "decode(1.0) = {one}");
}

#[test]
fn encode_power_branch_exact() {
    assert_eq!(linear_to_srgb(2_140_000), 4_999_552);
    let one = linear_to_srgb(SCALE);
    assert!((one - SCALE).abs() <= 20, "encode(1.0) = {one}");
}

#[test]
fn transfer_oddness_exact() {
    for u in [1, 31_308, 31_309, 404_500, 404_501, 5_000_000, SCALE, 150_000_000] {
        assert_eq!(srgb_to_linear(-u), -srgb_to_linear(u));
        assert_eq!(linear_to_srgb(-u), -linear_to_srgb(u));
    }
}

#[test]
fn transfer_round_trip_unit_interval() {
    // encode(decode(u)) and decode(encode(u)) stay within 50 fixed-point
    // units (5e-6) of u across [-1, 1].
    let mut u: i64 = -SCALE;
    while u <= SCALE {
        let ed = linear_to_srgb(srgb_to_linear(u));
        assert!((ed - u).abs() <= 50, "encode(decode({u})) = {ed}");
        let de = srgb_to_linear(linear_to_srgb(u));
        assert!((de - u).abs() <= 50, "decode(encode({u})) = {de}");
        u += 37_777;
    }
    for u in [-SCALE, -404_501, -404_500, -31_308, 0, 31_308, 404_500, 404_501, SCALE] {
        let ed = linear_to_srgb(srgb_to_linear(u));
        assert!((ed - u).abs() <= 50);
        let de = srgb_to_linear(linear_to_srgb(u));
        assert!((de - u).abs() <= 50);
    }
}

#[test]
fn linear_segment_round_trip_is_nearly_exact() {
    // Within the linear segments the round trips lose at most 13 units
    // one way and 1 unit the other, exactly as the library's lemmas state.
    let mut u: i64 = -404_500;
    while u <= 404_500 {
        let ed = linear_to_srgb(srgb_to_linear(u));
        assert!((ed - u).abs() <= 13, "encode(decode({u})) = {ed}");
        u += 997;
    }
    let mut v: i64 = -31_308;
    while v <= 31_308 {
        let de = srgb_to_linear(linear_to_srgb(v));
        assert!((de - v).abs() <= 1, "decode(encode({v})) = {de}");
        v += 101;
    }
}
