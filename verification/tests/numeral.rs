use mandygif::numeral::{
    read_fraction, read_i32, read_unsigned, write_fraction, write_signed, write_unsigned,
};
use mandygif::text::{chars_of, is_whitespace, same_text, string_of, trim};
use mandygif::Fraction;

#[test]
fn natural_numbers_are_read_from_numerals() {
    assert_eq!(read_unsigned("0", u64::MAX), Some(0));
    assert_eq!(read_unsigned("18446744073709551615", u64::MAX), Some(u64::MAX));
    assert_eq!(read_unsigned("18446744073709551616", u64::MAX), None);
    assert_eq!(read_unsigned("99999999999999999999999999", u64::MAX), None);
    assert_eq!(read_unsigned("4294967295", 4_294_967_295), Some(4_294_967_295));
    assert_eq!(read_unsigned("4294967296", 4_294_967_295), None);
    for bad in ["", "00", "01", "+1", "-1", "1.0", "1e3", " 1", "1 ", "١"] {
        assert_eq!(read_unsigned(bad, u64::MAX), None, "for {:?}", bad);
    }
}

#[test]
fn integers_are_read_with_their_sign() {
    assert_eq!(read_i32("0"), Some(0));
    assert_eq!(read_i32("-1"), Some(-1));
    assert_eq!(read_i32("2147483647"), Some(i32::MAX));
    assert_eq!(read_i32("2147483648"), None);
    assert_eq!(read_i32("-2147483648"), Some(i32::MIN));
    assert_eq!(read_i32("-2147483649"), None);
    for bad in ["", "-", "-0", "--1", "-01", "+5", "5.0"] {
        assert_eq!(read_i32(bad), None, "for {:?}", bad);
    }
}

#[test]
fn numbers_are_written_as_they_are_read() {
    for n in [0u64, 1, 9, 10, 99, 100, 12345, u32::MAX as u64, u64::MAX] {
        assert_eq!(write_unsigned(n), n.to_string());
        assert_eq!(read_unsigned(&write_unsigned(n), u64::MAX), Some(n));
    }
    for i in [0i64, 1, -1, 10, -10, i32::MAX as i64, i32::MIN as i64, i64::MAX, i64::MIN] {
        assert_eq!(write_signed(i), i.to_string());
    }
    for i in [0i32, 5, -5, i32::MAX, i32::MIN] {
        assert_eq!(read_i32(&write_signed(i as i64)), Some(i));
    }
}

#[test]
fn proportions_are_read_to_the_nearest_millionth() {
    let read = |s: &str| read_fraction(s).map(|q| q.millionths());
    assert_eq!(read("0"), Some(0));
    assert_eq!(read("1"), Some(1_000_000));
    assert_eq!(read("0.5"), Some(500_000));
    assert_eq!(read("0.25"), Some(250_000));
    assert_eq!(read("0.1234564"), Some(123_456));
    assert_eq!(read("0.1234565"), Some(123_457));
    assert_eq!(read("0.9999995"), Some(1_000_000));
    assert_eq!(read("1.0000004"), Some(1_000_000));
    assert_eq!(read("1.0000005"), None);
    assert_eq!(read("1e-6"), Some(1));
    assert_eq!(read("4e-7"), Some(0));
    assert_eq!(read("5e-7"), Some(1));
    assert_eq!(read("25e-2"), Some(250_000));
    assert_eq!(read("0.001e3"), Some(1_000_000));
    assert_eq!(read("0.001e4"), None);
    assert_eq!(read("0e9999"), Some(0));
    assert_eq!(read("1e-9999"), Some(0));
    assert_eq!(read("0.000000000000000000000000000001"), None);
    assert_eq!(read("0.00000000000000000000000000001"), Some(0));
    assert_eq!(read("000000000000000000000000000001"), Some(1_000_000));
    assert_eq!(read("999999999999999999999999999999e-30"), Some(1_000_000));
    assert_eq!(read("999999999999999999999999999999e-36"), Some(1));
    for bad in
        ["", ".", ".5", "5.", "-0.5", "+0.5", "0.5e", "0.5e-", "0.5e+1", "0.5E-1", "1e10000", "0x1", "0.5 ", "2", "1.5", "1e1"]
    {
        assert_eq!(read(bad), None, "for {:?}", bad);
    }
}

#[test]
fn proportions_are_written_with_six_decimals() {
    let millionths_of = |m: u32| Fraction::from_millionths(m).unwrap();
    assert_eq!(write_fraction(millionths_of(0)), "0.000000");
    assert_eq!(write_fraction(millionths_of(1)), "0.000001");
    assert_eq!(write_fraction(millionths_of(800_000)), "0.800000");
    assert_eq!(write_fraction(millionths_of(1_000_000)), "1.000000");
    assert_eq!(Fraction::from_millionths(1_000_001), None);
    for m in [0u32, 1, 499_999, 500_000, 999_999, 1_000_000] {
        assert_eq!(read_fraction(&write_fraction(millionths_of(m))), Some(millionths_of(m)));
        assert_eq!(millionths_of(m).millionths(), m);
    }
    assert_eq!(millionths_of(250_000).scale_floor(639), 159);
    assert_eq!(millionths_of(1_000_000).scale_floor(u32::MAX), u32::MAX);
    assert_eq!(millionths_of(999_999).scale_floor(u32::MAX), 4_294_963_000);
    assert_eq!(Fraction::zero().millionths(), 0);
    assert_eq!(Fraction::one().millionths(), 1_000_000);
}

#[test]
fn text_is_taken_apart_and_put_together() {
    assert_eq!(chars_of("héllo"), vec!['h', 'é', 'l', 'l', 'o']);
    assert_eq!(string_of(&vec!['a', 'ß', 'c']), "aßc");
    assert_eq!(trim(&chars_of(" \t x y\u{2003}\n")), vec!['x', ' ', 'y']);
    assert_eq!(trim(&chars_of("\n \n")), Vec::<char>::new());
    assert!(same_text("abc", "abc"));
    assert!(!same_text("abc", "abd"));
    assert!(!same_text("abc", "ab"));
}

#[test]
fn white_space_is_what_the_standard_library_takes_for_it() {
    for u in 0..=0x10FFFFu32 {
        if let Some(c) = char::from_u32(u) {
            assert_eq!(is_whitespace(c), c.is_whitespace(), "at U+{:04X}", u);
        }
    }
    let padded = " \t\n\u{b}\u{c}\r\u{85}\u{a0}\u{1680}\u{2000}\u{200a}\u{2028}\u{2029}\u{202f}\u{205f}\u{3000}x\u{200b}y \u{3000}";
    assert_eq!(string_of(&trim(&chars_of(padded))), padded.trim());
}
