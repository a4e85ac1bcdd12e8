use mandygif::color::{alpha_to_byte, ff_color, ColorError};
use mandygif::Fraction;

fn full() -> Fraction {
    Fraction::one()
}

#[test]
fn short_form_opaque() {
    assert_eq!(ff_color("#fff", full()), Ok("0xFFFFFF".to_string()));
}

#[test]
fn short_form_with_alpha() {
    assert_eq!(ff_color("#0008", full()), Ok("0x000000@0.533".to_string()));
}

#[test]
fn long_form_default_alpha() {
    assert_eq!(ff_color("#ffffff", full()), Ok("0xFFFFFF".to_string()));
}

#[test]
fn other_lengths_are_refused() {
    for bad in ["", "#", "#f", "#ff", "#fffff", "#fffffff", "#fffffffff", "#ff ff"] {
        assert_eq!(ff_color(bad, full()), Err(ColorError::Length), "for {:?}", bad);
    }
}

#[test]
fn other_characters_are_refused() {
    for bad in ["#ggg", "#12345z", "#+f0000", "#-1-1-1", "#ff f", "##fff", "#ｆｆｆ"] {
        assert_eq!(ff_color(bad, full()), Err(ColorError::Digit), "for {:?}", bad);
    }
}

#[test]
fn short_digits_are_doubled() {
    assert_eq!(ff_color("#1a9", full()), Ok("0x11AA99".to_string()));
    assert_eq!(ff_color("1a9", full()), Ok("0x11AA99".to_string()));
    assert_eq!(ff_color("#ABC", full()), Ok("0xAABBCC".to_string()));
}

#[test]
fn every_short_alpha_is_scaled_linearly() {
    let expected = [
        "0x000000@0.000",
        "0x000000@0.067",
        "0x000000@0.133",
        "0x000000@0.200",
        "0x000000@0.267",
        "0x000000@0.333",
        "0x000000@0.400",
        "0x000000@0.467",
        "0x000000@0.533",
        "0x000000@0.600",
        "0x000000@0.667",
        "0x000000@0.733",
        "0x000000@0.800",
        "0x000000@0.867",
        "0x000000@0.933",
        "0x000000",
    ];
    for (digit, want) in "0123456789abcdef".chars().zip(expected) {
        assert_eq!(ff_color(&format!("#000{}", digit), full()), Ok(want.to_string()));
    }
}

#[test]
fn long_alpha_is_a_proportion_of_three_decimals() {
    assert_eq!(ff_color("#12345678", full()), Ok("0x123456@0.471".to_string()));
    assert_eq!(ff_color("#123456ff", full()), Ok("0x123456".to_string()));
    assert_eq!(ff_color("#12345600", full()), Ok("0x123456@0.000".to_string()));
    assert_eq!(ff_color("#123456FE", full()), Ok("0x123456@0.996".to_string()));
    assert_eq!(ff_color("#12345601", full()), Ok("0x123456@0.004".to_string()));
    assert_eq!(ff_color("#12345680", full()), Ok("0x123456@0.502".to_string()));
}

#[test]
fn long_alpha_matches_floating_point_for_every_byte() {
    for a in 0u32..255 {
        let want = format!("0x000000@{:.3}", a as f32 / 255.0);
        assert_eq!(ff_color(&format!("#000000{:02x}", a), full()), Ok(want));
    }
}

#[test]
fn the_default_alpha_stands_in_where_none_is_named() {
    let half = Fraction::from_millionths(500_000).unwrap();
    assert_eq!(alpha_to_byte(half), 128);
    assert_eq!(alpha_to_byte(Fraction::zero()), 0);
    assert_eq!(alpha_to_byte(full()), 255);
    assert_eq!(ff_color("#fff", half), Ok("0xFFFFFF@0.502".to_string()));
    assert_eq!(ff_color("#010203", Fraction::zero()), Ok("0x010203@0.000".to_string()));
    assert_eq!(ff_color("#0008", half), Ok("0x000000@0.533".to_string()));
}

#[test]
fn native_colours_pass_unchanged() {
    assert_eq!(ff_color("0xFFAA00", full()), Ok("0xFFAA00".to_string()));
    assert_eq!(ff_color("0xzz", full()), Ok("0xzz".to_string()));
    assert_eq!(ff_color("red@0.5", full()), Ok("red@0.5".to_string()));
    assert_eq!(ff_color("  white@1 \n", full()), Ok("white@1".to_string()));
}

#[test]
fn white_space_around_is_ignored() {
    assert_eq!(ff_color(" \t#fff\u{a0}\n", full()), Ok("0xFFFFFF".to_string()));
    assert_eq!(ff_color("   ", full()), Err(ColorError::Length));
}
