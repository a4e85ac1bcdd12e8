//! Caption colours: from CSS-style hexadecimal notation to the notation of the
//! encoder's drawing filters.

use vstd::prelude::*;
use crate::fraction::{round_div, Fraction};
use crate::text::{
    chars_of, owned, padded, push_char, push_padded, string_of, trim, trimmed,
};

verus! {

/// Why a colour was refused.
#[derive(Clone, Copy, Debug, PartialEq, Eq, Structural)]
pub enum ColorError {
    /// The number of digits is not 3, 4, 6 or 8.
    Length,
    /// A character that is not a hexadecimal digit stands among the digits.
    Digit,
}

/// The words that describe why a colour was refused.
pub open spec fn refusal_text(e: ColorError) -> Seq<char> {
    match e {
        ColorError::Length => "Invalid hex color format"@,
        ColorError::Digit => "invalid digit found in string"@,
    }
}

impl ColorError {
    /// The words that describe the error.
    pub fn message(&self) -> (s: String)
        ensures
            s@ == refusal_text(*self),
    {
        match self {
            ColorError::Length => owned("Invalid hex color format"),
            ColorError::Digit => owned("invalid digit found in string"),
        }
    }
}

/// The value of a hexadecimal digit, upper or lower case.
pub open spec fn hex_value(c: char) -> Option<nat> {
    if '0' <= c <= '9' {
        Some((c as nat - '0' as nat) as nat)
    } else if 'a' <= c <= 'f' {
        Some((c as nat - 'a' as nat + 10) as nat)
    } else if 'A' <= c <= 'F' {
        Some((c as nat - 'A' as nat + 10) as nat)
    } else {
        None
    }
}

/// The upper-case hexadecimal digit of `d`.
pub open spec fn hex_char(d: nat) -> char {
    if d < 10 {
        crate::text::digit_char(d)
    } else if d == 10 {
        'A'
    } else if d == 11 {
        'B'
    } else if d == 12 {
        'C'
    } else if d == 13 {
        'D'
    } else if d == 14 {
        'E'
    } else {
        'F'
    }
}

/// A byte as two upper-case hexadecimal digits.
pub open spec fn hex_pair(b: nat) -> Seq<char> {
    seq![hex_char(b / 16), hex_char(b % 16)]
}

/// A colour that is already in the encoder's notation: it starts with `0x` or
/// holds an `@`.
pub open spec fn is_native(s: Seq<char>) -> bool {
    (s.len() >= 2 && s[0] == '0' && s[1] == 'x') || s.contains('@')
}

/// `s` without one leading `#`.
pub open spec fn strip_hash(s: Seq<char>) -> Seq<char> {
    if s.len() > 0 && s[0] == '#' {
        s.skip(1)
    } else {
        s
    }
}

/// Whether every character is a hexadecimal digit.
pub open spec fn all_hex(s: Seq<char>) -> bool {
    forall|i: int| 0 <= i < s.len() ==> (#[trigger] hex_value(s[i])) is Some
}

/// The value of the digit at `i`.
pub open spec fn nibble(s: Seq<char>, i: int) -> nat {
    hex_value(s[i]).unwrap()
}

/// The byte written by the two digits at `i` and `i + 1`.
pub open spec fn byte_at(s: Seq<char>, i: int) -> nat {
    nibble(s, i) * 16 + nibble(s, i + 1)
}

/// The alpha byte that stands for a proportion: `alpha * 255`, rounded.
pub open spec fn alpha_byte(millionths: nat) -> nat {
    round_div(millionths * 255, 1_000_000)
}

/// Red, green, blue and alpha of a run of 3, 4, 6 or 8 hexadecimal digits.
/// A short digit `d` stands for the byte `dd`, that is `17 * d`; for the short
/// alpha digit this is the linear map of 0..=15 onto 0..=255.
pub open spec fn channels(hex: Seq<char>, default_alpha: nat) -> (nat, nat, nat, nat) {
    if hex.len() == 3 {
        (17 * nibble(hex, 0), 17 * nibble(hex, 1), 17 * nibble(hex, 2), alpha_byte(default_alpha))
    } else if hex.len() == 4 {
        (
            17 * nibble(hex, 0),
            17 * nibble(hex, 1),
            17 * nibble(hex, 2),
            round_div(nibble(hex, 3) * 255, 15),
        )
    } else if hex.len() == 6 {
        (byte_at(hex, 0), byte_at(hex, 2), byte_at(hex, 4), alpha_byte(default_alpha))
    } else {
        (byte_at(hex, 0), byte_at(hex, 2), byte_at(hex, 4), byte_at(hex, 6))
    }
}

/// The encoder's notation: `0xRRGGBB` for an opaque colour, else `0xRRGGBB@A`
/// with the alpha as a proportion of three decimals.
pub open spec fn color_text(r: nat, g: nat, b: nat, a: nat) -> Seq<char> {
    let rgb = seq!['0', 'x'] + hex_pair(r) + hex_pair(g) + hex_pair(b);
    if a == 255 {
        rgb
    } else {
        rgb + seq!['@', '0', '.'] + padded(round_div(a * 1000, 255), 3)
    }
}

/// The encoder's notation of the colour `input`, where `default_alpha`, in
/// millionths, is the alpha of a colour that names none.
#[verifier::opaque]
pub open spec fn normalized_color(input: Seq<char>, default_alpha: nat) -> Result<
    Seq<char>,
    ColorError,
> {
    let s = trimmed(input);
    if is_native(s) {
        Ok(s)
    } else {
        let hex = strip_hash(s);
        if !(hex.len() == 3 || hex.len() == 4 || hex.len() == 6 || hex.len() == 8) {
            Err(ColorError::Length)
        } else if !all_hex(hex) {
            Err(ColorError::Digit)
        } else {
            let (r, g, b, a) = channels(hex, default_alpha);
            Ok(color_text(r, g, b, a))
        }
    }
}

/// Whether a computed text, or the error in its place, is the expected one.
pub open spec fn text_is<E>(r: Result<String, E>, expected: Result<Seq<char>, E>) -> bool {
    match expected {
        Ok(t) => r is Ok && r->Ok_0@ == t,
        Err(e) => r is Err && r->Err_0 == e,
    }
}

fn hex_digit(c: char) -> (r: Option<u8>)
    ensures
        r is Some == hex_value(c) is Some,
        r matches Some(d) ==> d == hex_value(c).unwrap() && d < 16,
{
    if '0' <= c && c <= '9' {
        Some((c as u32 - '0' as u32) as u8)
    } else if 'a' <= c && c <= 'f' {
        Some((c as u32 - 'a' as u32 + 10) as u8)
    } else if 'A' <= c && c <= 'F' {
        Some((c as u32 - 'A' as u32 + 10) as u8)
    } else {
        None
    }
}

fn upper_hex(d: u8) -> (c: char)
    requires
        d < 16,
    ensures
        c == hex_char(d as nat),
{
    if d < 10 {
        crate::text::digit(d)
    } else if d == 10 {
        'A'
    } else if d == 11 {
        'B'
    } else if d == 12 {
        'C'
    } else if d == 13 {
        'D'
    } else if d == 14 {
        'E'
    } else {
        'F'
    }
}

fn push_hex_pair(out: &mut String, b: u8)
    ensures
        final(out)@ == old(out)@ + hex_pair(b as nat),
{
    push_char(out, upper_hex(b / 16));
    push_char(out, upper_hex(b % 16));
    assert(final(out)@ == old(out)@ + hex_pair(b as nat)) by {
        assert(old(out)@.push(hex_char(b as nat / 16)).push(hex_char(b as nat % 16)) == old(out)@
            + hex_pair(b as nat));
    }
}

/// The values of the digits of `hex`, if all of them are hexadecimal digits.
fn digits_of(hex: &Vec<char>) -> (r: Option<Vec<u8>>)
    ensures
        r is Some == all_hex(hex@),
        r matches Some(d) ==> d.len() == hex.len() && forall|i: int|
            0 <= i < d.len() ==> d[i] == nibble(hex@, i) && d[i] < 16,
{
    let mut d: Vec<u8> = Vec::new();
    let mut i: usize = 0;
    while i < hex.len()
        invariant
            i <= hex.len(),
            d.len() == i,
            forall|j: int| 0 <= j < i ==> (#[trigger] hex_value(hex@[j])) is Some,
            forall|j: int| 0 <= j < i ==> d[j] == nibble(hex@, j) && d[j] < 16,
        decreases hex.len() - i,
    {
        match hex_digit(hex[i]) {
            Some(v) => {
                d.push(v);
            },
            None => {
                assert(hex_value(hex@[i as int]) is None);
                return None;
            },
        }
        i += 1;
    }
    Some(d)
}

fn is_native_color(s: &Vec<char>) -> (r: bool)
    ensures
        r == is_native(s@),
{
    if s.len() >= 2 && s[0] == '0' && s[1] == 'x' {
        return true;
    }
    let mut i: usize = 0;
    while i < s.len()
        invariant
            i <= s.len(),
            forall|j: int| 0 <= j < i ==> s@[j] != '@',
        decreases s.len() - i,
    {
        if s[i] == '@' {
            return true;
        }
        i += 1;
    }
    false
}

/// The alpha byte of a proportion.
pub fn alpha_to_byte(alpha: Fraction) -> (a: u8)
    ensures
        a == alpha_byte(alpha.value()),
{
    let m: u64 = alpha.millionths() as u64;
    ((2 * (m * 255) + 1_000_000) / 2_000_000) as u8
}

/// Appends the encoder's notation of a colour.
fn push_color(out: &mut String, r: u8, g: u8, b: u8, a: u8)
    ensures
        final(out)@ == old(out)@ + color_text(r as nat, g as nat, b as nat, a as nat),
{
    push_char(out, '0');
    push_char(out, 'x');
    push_hex_pair(out, r);
    push_hex_pair(out, g);
    push_hex_pair(out, b);
    let ghost rgb = seq!['0', 'x'] + hex_pair(r as nat) + hex_pair(g as nat) + hex_pair(b as nat);
    assert(out@ == old(out)@ + rgb);
    if a != 255 {
        push_char(out, '@');
        push_char(out, '0');
        push_char(out, '.');
        let th: u64 = (2 * (a as u64 * 1000) + 255) / 510;
        push_padded(out, th, 3);
        assert(out@ == old(out)@ + (rgb + seq!['@', '0', '.'] + padded(th as nat, 3)));
    }
}

/// Normalises a caption colour for the encoder.
///
/// White space around the input is ignored. A colour already in the
/// encoder's notation is handed back as it is. Otherwise an optional `#` is
/// followed by 3, 4, 6 or 8 hexadecimal digits; where the digits name no
/// alpha, `default_alpha` stands in.
pub fn ff_color(input: &str, default_alpha: Fraction) -> (res: Result<String, ColorError>)
    ensures
        text_is(res, normalized_color(input@, default_alpha.value())),
{
    proof {
        reveal(normalized_color);
    }
    let raw = chars_of(input);
    let s = trim(&raw);
    if is_native_color(&s) {
        return Ok(string_of(&s));
    }
    let mut hex: Vec<char> = Vec::new();
    let start: usize = if s.len() > 0 && s[0] == '#' {
        1
    } else {
        0
    };
    let mut i: usize = start;
    while i < s.len()
        invariant
            start <= i <= s.len(),
            hex@ == s@.subrange(start as int, i as int),
        decreases s.len() - i,
    {
        hex.push(s[i]);
        i += 1;
        assert(s@.subrange(start as int, i as int) == s@.subrange(start as int, i - 1).push(
            s@[i - 1],
        ));
    }
    assert(hex@ == strip_hash(s@)) by {
        assert(s@.subrange(start as int, s@.len() as int) == s@.skip(start as int));
        assert(s@.skip(0) == s@);
    }
    let n = hex.len();
    if !(n == 3 || n == 4 || n == 6 || n == 8) {
        return Err(ColorError::Length);
    }
    let d = match digits_of(&hex) {
        Some(d) => d,
        None => {
            return Err(ColorError::Digit);
        },
    };
    let (r, g, b, a): (u8, u8, u8, u8) = if n == 3 {
        (17 * d[0], 17 * d[1], 17 * d[2], alpha_to_byte(default_alpha))
    } else if n == 4 {
        (17 * d[0], 17 * d[1], 17 * d[2], 17 * d[3])
    } else if n == 6 {
        (16 * d[0] + d[1], 16 * d[2] + d[3], 16 * d[4] + d[5], alpha_to_byte(default_alpha))
    } else {
        (16 * d[0] + d[1], 16 * d[2] + d[3], 16 * d[4] + d[5], 16 * d[6] + d[7])
    };
    proof {
        let (sr, sg, sb, sa) = channels(hex@, default_alpha.value());
        if n == 4 {
            let k = d[3] as nat;
            assert(round_div(k * 255, 15) == 17 * k) by {
                assert((2 * (k * 255) + 15) / 30 == 17 * k);
            }
        }
        assert(sr == r && sg == g && sb == b && sa == a);
    }
    let mut out = String::new();
    push_color(&mut out, r, g, b, a);
    assert(out@ == color_text(r as nat, g as nat, b as nat, a as nat)) by {
        assert(Seq::<char>::empty() + color_text(r as nat, g as nat, b as nat, a as nat)
            == color_text(r as nat, g as nat, b as nat, a as nat));
    }
    Ok(out)
}

} // verus!
