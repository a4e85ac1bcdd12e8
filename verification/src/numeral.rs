//! Number literals: how integers and proportions are written in JSON, and how
//! they are read back.

use vstd::prelude::*;
use crate::fraction::{round_div, six_decimals, Fraction};
use crate::text::{chars_of, decimal, digit_char, padded, push_char, push_decimal};

verus! {

/// Whether `c` is a decimal digit.
pub open spec fn is_digit(c: char) -> bool {
    '0' <= c <= '9'
}

/// The value of a decimal digit.
pub open spec fn digit_value(c: char) -> nat {
    (c as nat - '0' as nat) as nat
}

/// Whether every character is a decimal digit.
pub open spec fn all_digits(s: Seq<char>) -> bool {
    forall|i: int| 0 <= i < s.len() ==> is_digit(#[trigger] s[i])
}

/// The number that a run of decimal digits writes; zero for the empty run.
pub open spec fn digits_value(s: Seq<char>) -> nat
    decreases s.len(),
{
    if s.len() == 0 {
        0
    } else {
        digits_value(s.drop_last()) * 10 + digit_value(s.last())
    }
}

/// A numeral is a run of digits, at least one, with no leading zero but for
/// zero itself.
pub open spec fn is_numeral(s: Seq<char>) -> bool {
    s.len() > 0 && all_digits(s) && (s.len() == 1 || s[0] != '0')
}

/// The natural number up to `max` that a literal writes, if it writes one.
pub open spec fn unsigned_of(lit: Seq<char>, max: nat) -> Option<nat> {
    if is_numeral(lit) && digits_value(lit) <= max {
        Some(digits_value(lit))
    } else {
        None
    }
}

/// The literal of an integer: a minus sign before the numeral of a negative
/// one.
pub open spec fn signed_literal(i: int) -> Seq<char> {
    if i < 0 {
        seq!['-'] + decimal((-i) as nat)
    } else {
        decimal(i as nat)
    }
}

/// The integer from `min` to `max` that a literal writes, if it writes one.
/// Zero is written without a sign.
pub open spec fn signed_of(lit: Seq<char>, min: int, max: int) -> Option<int>
    recommends
        min <= 0 <= max,
{
    if lit.len() > 0 && lit[0] == '-' {
        let digits = lit.skip(1);
        if is_numeral(digits) && 0 < digits_value(digits) <= -min {
            Some(-(digits_value(digits) as int))
        } else {
            None
        }
    } else if is_numeral(lit) && digits_value(lit) <= max {
        Some(digits_value(lit) as int)
    } else {
        None
    }
}

/// A numeral's value does not shrink as digits are appended.
proof fn digits_value_grows(s: Seq<char>, j: int)
    requires
        0 <= j <= s.len(),
    ensures
        digits_value(s.take(j)) <= digits_value(s),
    decreases s.len() - j,
{
    if j == s.len() {
        assert(s.take(j) == s);
    } else {
        assert(s.take(j + 1).drop_last() == s.take(j));
        digits_value_grows(s, j + 1);
    }
}

/// The decimal numeral of `n` is a numeral, and it writes `n`.
pub proof fn decimal_is_numeral(n: nat)
    ensures
        is_numeral(decimal(n)),
        digits_value(decimal(n)) == n,
        n > 0 ==> decimal(n)[0] != '0',
    decreases n,
{
    if n < 10 {
        let s = decimal(n);
        assert(s.drop_last() == Seq::<char>::empty());
        assert(digits_value(s.drop_last()) == 0);
    } else {
        decimal_is_numeral(n / 10);
        let head = decimal(n / 10);
        let s = head.push(digit_char(n % 10));
        assert(s.drop_last() == head);
        assert(s.last() == digit_char(n % 10));
        assert(s[0] == head[0]);
        assert forall|i: int| 0 <= i < s.len() implies is_digit(#[trigger] s[i]) by {
            if i < head.len() {
                assert(s[i] == head[i]);
            }
        }
    }
}

/// Reading the literal of an integer gives the integer back.
pub proof fn signed_literal_reads_back(i: int, min: int, max: int)
    requires
        min <= i <= max,
        min <= 0 <= max,
    ensures
        signed_of(signed_literal(i), min, max) == Some(i),
{
    if i < 0 {
        let n = (-i) as nat;
        decimal_is_numeral(n);
        let lit = seq!['-'] + decimal(n);
        assert(lit[0] == '-');
        assert(lit.skip(1) == decimal(n));
    } else {
        decimal_is_numeral(i as nat);
        assert(is_digit(decimal(i as nat)[0]));
    }
}

/// Reading the numeral of a natural number gives the number back.
pub proof fn decimal_reads_back(n: nat, max: nat)
    requires
        n <= max,
    ensures
        unsigned_of(decimal(n), max) == Some(n),
{
    decimal_is_numeral(n);
}

fn digit_of(c: char) -> (r: Option<u8>)
    ensures
        r is Some == is_digit(c),
        r matches Some(d) ==> d == digit_value(c) && d < 10,
{
    if '0' <= c && c <= '9' {
        Some((c as u32 - '0' as u32) as u8)
    } else {
        None
    }
}

/// The value of the digits `s[from..]`, if that is a numeral worth at most `max`.
fn numeral_value(s: &Vec<char>, from: usize, max: u64) -> (r: Option<u64>)
    requires
        from <= s.len(),
    ensures
        r == match unsigned_of(s@.skip(from as int), max as nat) {
            Some(n) => Some(n as u64),
            None => None,
        },
{
    let ghost lit = s@.skip(from as int);
    let n = s.len();
    if from == n {
        return None;
    }
    if n - from > 1 && s[from] == '0' {
        assert(lit[0] == '0');
        return None;
    }
    let mut acc: u64 = 0;
    let mut i: usize = from;
    assert(lit.take(0) == Seq::<char>::empty());
    while i < n
        invariant
            from <= i <= n,
            n == s.len(),
            lit == s@.skip(from as int),
            acc == digits_value(lit.take(i - from)),
            acc <= max,
            forall|j: int| 0 <= j < i - from ==> is_digit(#[trigger] lit[j]),
        decreases n - i,
    {
        assert(lit[i - from] == s@[i as int]);
        let d = match digit_of(s[i]) {
            Some(d) => d,
            None => {
                return None;
            },
        };
        proof {
            assert(lit.take(i - from + 1).drop_last() == lit.take(i - from));
            assert(lit.take(i - from + 1).last() == s@[i as int]);
            digits_value_grows(lit, i - from + 1);
        }
        let wide: u128 = acc as u128 * 10 + d as u128;
        if wide > max as u128 {
            return None;
        }
        acc = wide as u64;
        i += 1;
    }
    assert(lit.take(lit.len() as int) == lit);
    Some(acc)
}

/// Reads a literal as a natural number of at most `max`.
pub fn read_unsigned(lit: &str, max: u64) -> (r: Option<u64>)
    ensures
        r == match unsigned_of(lit@, max as nat) {
            Some(n) => Some(n as u64),
            None => None,
        },
{
    let s = chars_of(lit);
    assert(s@.skip(0) == s@);
    numeral_value(&s, 0, max)
}

/// Reads a literal as an integer of 32 bits.
pub fn read_i32(lit: &str) -> (r: Option<i32>)
    ensures
        r == match signed_of(lit@, i32::MIN as int, i32::MAX as int) {
            Some(i) => Some(i as i32),
            None => None,
        },
{
    let s = chars_of(lit);
    if s.len() > 0 && s[0] == '-' {
        match numeral_value(&s, 1, 2_147_483_648) {
            Some(n) => {
                if n == 0 {
                    None
                } else {
                    Some((-(n as i64)) as i32)
                }
            },
            None => None,
        }
    } else {
        assert(s@.skip(0) == s@);
        match numeral_value(&s, 0, 2_147_483_647) {
            Some(n) => Some(n as i32),
            None => None,
        }
    }
}

/// Writes an integer as its literal.
pub fn write_signed(i: i64) -> (s: String)
    ensures
        s@ == signed_literal(i as int),
{
    let mut s = String::new();
    if i < 0 {
        push_char(&mut s, '-');
        let n: u64 = if i == i64::MIN {
            9_223_372_036_854_775_808
        } else {
            (-i) as u64
        };
        push_decimal(&mut s, n);
        assert(s@ == seq!['-'] + decimal(n as nat));
    } else {
        push_decimal(&mut s, i as u64);
        assert(Seq::<char>::empty() + decimal(i as nat) == decimal(i as nat));
    }
    s
}

/// Writes a natural number as its numeral.
pub fn write_unsigned(n: u64) -> (s: String)
    ensures
        s@ == decimal(n as nat),
{
    let mut s = String::new();
    push_decimal(&mut s, n);
    assert(Seq::<char>::empty() + decimal(n as nat) == decimal(n as nat));
    s
}

/// A literal that writes an integer as the JSON reader keeps it whole: a
/// numeral of at most sixty-four bits, or a minus sign before a numeral that
/// is not zero and whose negative fits sixty-four bits.
pub open spec fn integer_literal(lit: Seq<char>) -> bool {
    ||| is_numeral(lit) && digits_value(lit) <= u64::MAX
    ||| lit.len() > 0 && lit[0] == '-' && is_numeral(lit.skip(1)) && 0 < digits_value(lit.skip(1))
        <= 9_223_372_036_854_775_808
}

/// A literal made of one digit, a point and six digits, as proportions are
/// written.
pub open spec fn point_literal(lit: Seq<char>) -> bool {
    &&& lit.len() == 8
    &&& is_digit(lit[0])
    &&& lit[1] == '.'
    &&& forall|i: int| 2 <= i < 8 ==> is_digit(#[trigger] lit[i])
}

/// The literal of an integer of sixty-four bits, signed or not, is an
/// integer literal.
pub proof fn signed_literal_is_integer(i: int)
    requires
        -9_223_372_036_854_775_808 <= i <= u64::MAX,
    ensures
        integer_literal(signed_literal(i)),
{
    if i < 0 {
        let n = (-i) as nat;
        decimal_is_numeral(n);
        let lit = seq!['-'] + decimal(n);
        assert(lit[0] == '-');
        assert(lit.skip(1) == decimal(n));
    } else {
        decimal_is_numeral(i as nat);
    }
}

/// Ten to the power `e`.
pub open spec fn pow10(e: nat) -> nat
    decreases e,
{
    if e == 0 {
        1
    } else {
        10 * pow10((e - 1) as nat)
    }
}

/// How many characters at the start of `s` are digits.
pub open spec fn digit_run(s: Seq<char>) -> nat
    decreases s.len(),
{
    if s.len() > 0 && is_digit(s[0]) {
        1 + digit_run(s.skip(1))
    } else {
        0
    }
}

/// The most digits that the whole and the fractional part of a proportion's
/// literal may have together.
pub const MAX_DIGITS: usize = 30;

/// The most digits that the exponent of a proportion's literal may have.
pub const MAX_EXPONENT_DIGITS: usize = 4;

/// The parts of a decimal literal: the digits before the point, the digits
/// after it, and the power of ten that scales them.
pub struct DecimalParts {
    pub whole: Seq<char>,
    pub part: Seq<char>,
    pub exponent: int,
}

/// What follows the digits of a literal: nothing, or `e`, an optional minus
/// sign and the digits of the exponent.
pub open spec fn exponent_of(tail: Seq<char>) -> Option<int> {
    if tail.len() == 0 {
        Some(0)
    } else if tail[0] == 'e' {
        let negative = tail.len() > 1 && tail[1] == '-';
        let digits = tail.skip(
            if negative {
                2
            } else {
                1
            },
        );
        if 0 < digits.len() <= MAX_EXPONENT_DIGITS && all_digits(digits) {
            Some(
                if negative {
                    -(digits_value(digits) as int)
                } else {
                    digits_value(digits) as int
                },
            )
        } else {
            None
        }
    } else {
        None
    }
}

/// Takes a literal apart. It is made of digits, then optionally a point and
/// more digits, then optionally an exponent; no sign stands before it.
pub open spec fn decimal_parts(lit: Seq<char>) -> Option<DecimalParts> {
    let w = digit_run(lit) as int;
    let rest = lit.skip(w);
    if w == 0 {
        None
    } else if rest.len() > 0 && rest[0] == '.' {
        let f = digit_run(rest.skip(1)) as int;
        if f == 0 {
            None
        } else {
            match exponent_of(rest.skip(1 + f)) {
                Some(exponent) => Some(
                    DecimalParts { whole: lit.take(w), part: rest.subrange(1, 1 + f), exponent },
                ),
                None => None,
            }
        }
    } else {
        match exponent_of(rest) {
            Some(exponent) => Some(
                DecimalParts { whole: lit.take(w), part: Seq::empty(), exponent },
            ),
            None => None,
        }
    }
}

/// The value of a literal in millionths, rounded to the nearest whole
/// millionth, a half going up.
pub open spec fn millionths_of(parts: DecimalParts) -> nat {
    let digits = digits_value(parts.whole + parts.part);
    let shift = parts.exponent - parts.part.len() + 6;
    if shift >= 0 {
        digits * pow10(shift as nat)
    } else {
        round_div(digits, pow10((-shift) as nat))
    }
}

/// The proportion that a literal writes, in millionths: the literal has at
/// most `MAX_DIGITS` digits before its exponent, and its rounded value is at
/// most one.
pub open spec fn fraction_of(lit: Seq<char>) -> Option<nat> {
    match decimal_parts(lit) {
        None => None,
        Some(parts) => {
            if parts.whole.len() + parts.part.len() > MAX_DIGITS {
                None
            } else if millionths_of(parts) > 1_000_000 {
                None
            } else {
                Some(millionths_of(parts))
            }
        },
    }
}

/// The powers of ten are positive and do not fall.
pub proof fn pow10_grows(a: nat, b: nat)
    requires
        a <= b,
    ensures
        pow10(a) <= pow10(b),
        pow10(a) > 0,
    decreases b,
{
    if a < b {
        pow10_grows(a, (b - 1) as nat);
    } else if a > 0 {
        pow10_grows((a - 1) as nat, (a - 1) as nat);
    }
}

/// The powers of ten that the arithmetic on literals meets.
pub proof fn pow10_values()
    ensures
        pow10(0) == 1,
        pow10(4) == 10_000,
        pow10(6) == 1_000_000,
        pow10(7) == 10_000_000,
        pow10(30) == 1_000_000_000_000_000_000_000_000_000_000,
        pow10(32) == 100_000_000_000_000_000_000_000_000_000_000,
{
    assert(pow10(0) == 1);
    assert(pow10(1) == 10);
    assert(pow10(2) == 100);
    assert(pow10(3) == 1_000);
    assert(pow10(4) == 10_000);
    assert(pow10(5) == 100_000);
    assert(pow10(6) == 1_000_000);
    assert(pow10(7) == 10_000_000);
    assert(pow10(8) == 100_000_000);
    assert(pow10(9) == 1_000_000_000);
    assert(pow10(10) == 10_000_000_000);
    assert(pow10(11) == 100_000_000_000);
    assert(pow10(12) == 1_000_000_000_000);
    assert(pow10(13) == 10_000_000_000_000);
    assert(pow10(14) == 100_000_000_000_000);
    assert(pow10(15) == 1_000_000_000_000_000);
    assert(pow10(16) == 10_000_000_000_000_000);
    assert(pow10(17) == 100_000_000_000_000_000);
    assert(pow10(18) == 1_000_000_000_000_000_000);
    assert(pow10(19) == 10_000_000_000_000_000_000);
    assert(pow10(20) == 100_000_000_000_000_000_000);
    assert(pow10(21) == 1_000_000_000_000_000_000_000);
    assert(pow10(22) == 10_000_000_000_000_000_000_000);
    assert(pow10(23) == 100_000_000_000_000_000_000_000);
    assert(pow10(24) == 1_000_000_000_000_000_000_000_000);
    assert(pow10(25) == 10_000_000_000_000_000_000_000_000);
    assert(pow10(26) == 100_000_000_000_000_000_000_000_000);
    assert(pow10(27) == 1_000_000_000_000_000_000_000_000_000);
    assert(pow10(28) == 10_000_000_000_000_000_000_000_000_000);
    assert(pow10(29) == 100_000_000_000_000_000_000_000_000_000);
    assert(pow10(30) == 1_000_000_000_000_000_000_000_000_000_000);
    assert(pow10(31) == 10_000_000_000_000_000_000_000_000_000_000);
    assert(pow10(32) == 100_000_000_000_000_000_000_000_000_000_000);
}

/// If the first `n` characters are digits and the next one is not, or there
/// is none, then the run of digits at the start has length `n`.
proof fn digit_run_found(s: Seq<char>, n: nat)
    requires
        n <= s.len(),
        forall|i: int| 0 <= i < n ==> is_digit(#[trigger] s[i]),
        n < s.len() ==> !is_digit(s[n as int]),
    ensures
        digit_run(s) == n,
    decreases n,
{
    if n > 0 {
        let t = s.skip(1);
        assert forall|i: int| 0 <= i < n - 1 implies is_digit(#[trigger] t[i]) by {
            assert(t[i] == s[i + 1]);
        }
        assert(is_digit(s[0]));
        digit_run_found(t, (n - 1) as nat);
    }
}

/// Ten to the power `e`, for the powers that fit.
fn ten_to(e: u32) -> (r: u128)
    requires
        e <= 32,
    ensures
        r == pow10(e as nat),
{
    let mut r: u128 = 1;
    let mut i: u32 = 0;
    while i < e
        invariant
            i <= e <= 32,
            r == pow10(i as nat),
        decreases e - i,
    {
        proof {
            pow10_values();
            pow10_grows((i + 1) as nat, 32);
        }
        r = r * 10;
        i += 1;
    }
    r
}

/// The index after the digits that start at `from`.
fn skip_digits(s: &Vec<char>, from: usize) -> (to: usize)
    requires
        from <= s.len(),
    ensures
        from <= to <= s.len(),
        to - from == digit_run(s@.skip(from as int)),
        forall|i: int| from <= i < to ==> is_digit(#[trigger] s@[i]),
{
    let ghost rest = s@.skip(from as int);
    let mut to: usize = from;
    while to < s.len() && digit_of(s[to]).is_some()
        invariant
            from <= to <= s.len(),
            forall|i: int| from <= i < to ==> is_digit(#[trigger] s@[i]),
        decreases s.len() - to,
    {
        to += 1;
    }
    proof {
        assert forall|i: int| 0 <= i < to - from implies is_digit(#[trigger] rest[i]) by {
            assert(rest[i] == s@[i + from]);
        }
        if to < s.len() {
            assert(rest[to - from] == s@[to as int]);
        }
        digit_run_found(rest, (to - from) as nat);
    }
    to
}

/// The exponent written by `s[from..]`.
fn read_exponent(s: &Vec<char>, from: usize) -> (r: Option<i32>)
    requires
        from <= s.len(),
    ensures
        match exponent_of(s@.skip(from as int)) {
            Some(e) => -9999 <= e <= 9999 && r == Some(e as i32),
            None => r is None,
        },
{
    let ghost tail = s@.skip(from as int);
    let n = s.len();
    if from == n {
        return Some(0);
    }
    assert(tail[0] == s@[from as int]);
    if s[from] != 'e' {
        return None;
    }
    let negative = n - from > 1 && s[from + 1] == '-';
    if n - from > 1 {
        assert(tail[1] == s@[from + 1]);
    }
    let start: usize = if negative {
        from + 2
    } else {
        from + 1
    };
    let ghost digits = tail.skip(start - from);
    assert(digits == s@.skip(start as int));
    if start == n || n - start > MAX_EXPONENT_DIGITS {
        return None;
    }
    let mut acc: i32 = 0;
    let mut i: usize = start;
    assert(digits.take(0) == Seq::<char>::empty());
    while i < n
        invariant
            start <= i <= n,
            n == s.len(),
            n - start <= MAX_EXPONENT_DIGITS,
            digits == s@.skip(start as int),
            acc == digits_value(digits.take(i - start)),
            acc < pow10((i - start) as nat),
            forall|j: int| 0 <= j < i - start ==> is_digit(#[trigger] digits[j]),
            exponent_of(s@.skip(from as int)) == if all_digits(digits) {
                Some(
                    if negative {
                        -(digits_value(digits) as int)
                    } else {
                        digits_value(digits) as int
                    },
                )
            } else {
                None
            },
        decreases n - i,
    {
        assert(digits[i - start] == s@[i as int]);
        let d = match digit_of(s[i]) {
            Some(d) => d,
            None => {
                return None;
            },
        };
        proof {
            assert(digits.take(i - start + 1).drop_last() == digits.take(i - start));
            assert(digits.take(i - start + 1).last() == s@[i as int]);
            pow10_values();
            pow10_grows((i - start) as nat, 4);
        }
        acc = acc * 10 + d as i32;
        i += 1;
    }
    proof {
        assert(digits.take(digits.len() as int) == digits);
        pow10_values();
        pow10_grows((n - start) as nat, 4);
    }
    if negative {
        Some(-acc)
    } else {
        Some(acc)
    }
}

/// The number written by the digits `s[a..b]` followed by the digits
/// `s[c..d]`.
fn joined_value(s: &Vec<char>, a: usize, b: usize, c: usize, d: usize) -> (r: u128)
    requires
        a <= b <= c <= d <= s.len(),
        (b - a) + (d - c) <= MAX_DIGITS,
        forall|i: int| a <= i < b ==> is_digit(#[trigger] s@[i]),
        forall|i: int| c <= i < d ==> is_digit(#[trigger] s@[i]),
    ensures
        r == digits_value(s@.subrange(a as int, b as int) + s@.subrange(c as int, d as int)),
        r < pow10(30),
{
    let ghost whole = s@.subrange(a as int, b as int);
    let ghost part = s@.subrange(c as int, d as int);
    let mut acc: u128 = 0;
    let mut i: usize = a;
    assert(whole.take(0) == Seq::<char>::empty());
    proof {
        pow10_values();
    }
    while i < b
        invariant
            a <= i <= b <= s.len(),
            b - a <= MAX_DIGITS,
            whole == s@.subrange(a as int, b as int),
            forall|k: int| a <= k < b ==> is_digit(#[trigger] s@[k]),
            acc == digits_value(whole.take(i - a)),
            acc < pow10((i - a) as nat),
        decreases b - i,
    {
        let d0 = digit_of(s[i]).unwrap();
        proof {
            assert(whole.take(i - a + 1).drop_last() == whole.take(i - a));
            assert(whole.take(i - a + 1).last() == s@[i as int]);
            pow10_values();
            pow10_grows((i - a + 1) as nat, 30);
        }
        acc = acc * 10 + d0 as u128;
        i += 1;
    }
    assert(whole.take(whole.len() as int) == whole);
    let mut j: usize = c;
    assert(whole + part.take(0) == whole);
    while j < d
        invariant
            c <= j <= d <= s.len(),
            (b - a) + (d - c) <= MAX_DIGITS,
            whole.len() == b - a,
            part == s@.subrange(c as int, d as int),
            forall|k: int| c <= k < d ==> is_digit(#[trigger] s@[k]),
            acc == digits_value(whole + part.take(j - c)),
            acc < pow10((b - a + (j - c)) as nat),
        decreases d - j,
    {
        let d0 = digit_of(s[j]).unwrap();
        proof {
            let longer = whole + part.take(j - c + 1);
            assert(longer.drop_last() == whole + part.take(j - c));
            assert(longer.last() == s@[j as int]);
            pow10_values();
            pow10_grows((b - a + (j - c) + 1) as nat, 30);
        }
        acc = acc * 10 + d0 as u128;
        j += 1;
    }
    proof {
        assert(part.take(part.len() as int) == part);
        pow10_grows((b - a + (d - c)) as nat, 30);
    }
    acc
}

/// Reads a literal as a proportion, rounded to the nearest millionth.
pub fn read_fraction(lit: &str) -> (r: Option<Fraction>)
    ensures
        match fraction_of(lit@) {
            Some(n) => r == Some(Fraction::with_value(n)),
            None => r is None,
        },
{
    let s = chars_of(lit);
    let n = s.len();
    assert(s@.skip(0) == s@);
    let w = skip_digits(&s, 0);
    if w == 0 {
        return None;
    }
    let ghost rest = s@.skip(w as int);
    let pointed = w < n && s[w] == '.';
    if w < n {
        assert(rest[0] == s@[w as int]);
    }
    let (c, d): (usize, usize) = if pointed {
        assert(rest.skip(1) == s@.skip(w + 1));
        let e = skip_digits(&s, w + 1);
        if e == w + 1 {
            return None;
        }
        assert(rest.subrange(1, 1 + (e - (w + 1))) == s@.subrange(w + 1, e as int));
        assert(rest.skip(1 + (e - (w + 1))) == s@.skip(e as int));
        (w + 1, e)
    } else {
        assert(s@.subrange(w as int, w as int) == Seq::<char>::empty());
        (w, w)
    };
    let exponent = match read_exponent(&s, d) {
        Some(e) => e,
        None => {
            return None;
        },
    };
    let ghost parts = DecimalParts {
        whole: s@.take(w as int),
        part: s@.subrange(c as int, d as int),
        exponent: exponent as int,
    };
    proof {
        assert(digit_run(lit@) == w);
        if pointed {
            assert(rest.len() > 0 && rest[0] == '.');
            assert(digit_run(rest.skip(1)) == d - c);
            assert(exponent_of(rest.skip(1 + (d - c))) == Some(exponent as int));
            assert(rest.subrange(1, 1 + (d - c)) == parts.part);
        } else {
            assert(!(rest.len() > 0 && rest[0] == '.'));
            assert(exponent_of(rest) == Some(exponent as int));
            assert(parts.part == Seq::<char>::empty());
        }
        assert(decimal_parts(lit@) == Some(parts));
    }
    assert(s@.take(w as int) == s@.subrange(0, w as int));
    if w + (d - c) > MAX_DIGITS {
        return None;
    }
    let digits = joined_value(&s, 0, w, c, d);
    let shift: i64 = exponent as i64 - (d - c) as i64 + 6;
    proof {
        pow10_values();
    }
    if shift >= 0 {
        if digits == 0 {
            assert(millionths_of(parts) == 0) by (nonlinear_arith)
                requires
                    millionths_of(parts) == 0 * pow10(shift as nat),
            ;
            return Some(Fraction::zero());
        }
        if shift > 6 {
            proof {
                pow10_grows(7, shift as nat);
                assert(digits * pow10(shift as nat) >= 10_000_000) by (nonlinear_arith)
                    requires
                        digits >= 1,
                        pow10(shift as nat) >= 10_000_000,
                ;
            }
            return None;
        }
        let scale = ten_to(shift as u32);
        proof {
            pow10_grows(shift as nat, 6);
            assert(digits * scale <= 1_000_000_000_000_000_000_000_000_000_000 * 1_000_000)
                by (nonlinear_arith)
                requires
                    digits < 1_000_000_000_000_000_000_000_000_000_000,
                    scale <= 1_000_000,
            ;
        }
        let m = digits * scale;
        if m > 1_000_000 {
            return None;
        }
        Fraction::from_millionths(m as u32)
    } else {
        let down: i64 = -shift;
        if down > 31 {
            proof {
                let p = pow10(down as nat) as int;
                let v = digits as int;
                pow10_grows(32, down as nat);
                assert((2 * v + p) / (2 * p) == 0) by (nonlinear_arith)
                    requires
                        0 <= 2 * v < p,
                ;
            }
            return Some(Fraction::zero());
        }
        let p = ten_to(down as u32);
        proof {
            pow10_grows(down as nat, 32);
        }
        let m = (2 * digits + p) / (2 * p);
        if m > 1_000_000 {
            return None;
        }
        Fraction::from_millionths(m as u32)
    }
}

/// Writes a proportion as a literal with six decimals.
pub fn write_fraction(q: Fraction) -> (s: String)
    ensures
        s@ == six_decimals(q.value()),
{
    let mut s = String::new();
    q.push_six_decimals(&mut s);
    assert(Seq::<char>::empty() + six_decimals(q.value()) == six_decimals(q.value()));
    s
}

/// A field of `width` digits has that many characters, all of them digits.
pub proof fn padded_is_digits(n: nat, width: nat)
    ensures
        padded(n, width).len() == width,
        all_digits(padded(n, width)),
    decreases width,
{
    if width > 0 {
        padded_is_digits(n / 10, (width - 1) as nat);
        let head = padded(n / 10, (width - 1) as nat);
        let s = head.push(digit_char(n % 10));
        assert forall|i: int| 0 <= i < s.len() implies is_digit(#[trigger] s[i]) by {
            if i < head.len() {
                assert(s[i] == head[i]);
            }
        }
    }
}

/// Digits followed by a field of `width` digits write the number of the
/// first, shifted by `width` places, plus what the field holds.
pub proof fn digits_value_with_field(head: Seq<char>, n: nat, width: nat)
    ensures
        digits_value(head + padded(n, width)) == digits_value(head) * pow10(width) + n % pow10(
            width,
        ),
    decreases width,
{
    if width == 0 {
        assert(head + padded(n, 0) == head);
        assert(digits_value(head) * 1 == digits_value(head)) by (nonlinear_arith);
    } else {
        let shorter = padded(n / 10, (width - 1) as nat);
        let all = head + padded(n, width);
        assert(all.drop_last() == head + shorter);
        assert(all.last() == digit_char(n % 10));
        digits_value_with_field(head, n / 10, (width - 1) as nat);
        let p = pow10((width - 1) as nat);
        pow10_grows(0, (width - 1) as nat);
        vstd::arithmetic::div_mod::lemma_mod_breakdown(n as int, 10, p as int);
        let v = digits_value(head) as int;
        let q = ((n / 10) % p) as int;
        let r = (n % 10) as int;
        let whole = (n % (10 * p)) as int;
        assert(whole == 10 * q + r);
        assert((v * p + q) * 10 + r == v * (10 * p) + whole) by (nonlinear_arith)
            requires
                whole == 10 * q + r,
        ;
        assert(pow10(width) == 10 * p);
        assert(digits_value(all) == (v * p + q) * 10 + r) by {
            assert(digit_value(digit_char(n % 10)) == n % 10);
        }
    }
}

/// Reading the six-decimal literal of a proportion gives the proportion back.
pub proof fn six_decimals_read_back(n: nat)
    requires
        n <= 1_000_000,
    ensures
        fraction_of(six_decimals(n)) == Some(n),
{
    let a = n / 1_000_000;
    let m = n % 1_000_000;
    let field = padded(m, 6);
    let whole = seq![digit_char(a)];
    let lit = six_decimals(n);
    padded_is_digits(m, 6);
    assert(decimal(a) == whole);
    assert(lit == whole.push('.') + field);
    assert(lit.len() == 8);
    assert(lit[0] == digit_char(a));
    assert(lit[1] == '.');
    assert forall|i: int| 0 <= i < 6 implies lit[i + 2] == field[i] by {}
    digit_run_found(lit, 1);
    let rest = lit.skip(1);
    assert(rest[0] == '.');
    assert(rest.skip(1) == field);
    digit_run_found(field, 6);
    assert(rest.skip(7) == Seq::<char>::empty());
    assert(rest.subrange(1, 7) == field);
    assert(lit.take(1) == whole);
    let parts = DecimalParts { whole, part: field, exponent: 0 };
    assert(decimal_parts(lit) == Some(parts));
    digits_value_with_field(whole, m, 6);
    pow10_values();
    assert(whole.drop_last() == Seq::<char>::empty());
    assert(digits_value(whole) == a) by {
        assert(digits_value(Seq::<char>::empty()) == 0);
    }
    let digits = digits_value(whole + field);
    assert(digits == a * 1_000_000 + m % 1_000_000);
    assert(digits == n);
    assert(parts.exponent - parts.part.len() + 6 == 0);
    assert(millionths_of(parts) == digits * pow10(0));
    assert(digits * 1 == digits) by (nonlinear_arith);
}

/// The six-decimal literal of a proportion is a point literal.
pub proof fn six_decimals_is_point_literal(n: nat)
    requires
        n <= 1_000_000,
    ensures
        point_literal(six_decimals(n)),
{
    let a = n / 1_000_000;
    let m = n % 1_000_000;
    let field = padded(m, 6);
    let lit = six_decimals(n);
    padded_is_digits(m, 6);
    assert(decimal(a) == seq![digit_char(a)]);
    assert(lit == seq![digit_char(a)].push('.') + field);
    assert(lit.len() == 8);
    assert(lit[0] == digit_char(a));
    assert(lit[1] == '.');
    assert forall|i: int| 2 <= i < 8 implies is_digit(#[trigger] lit[i]) by {
        assert(lit[i] == field[i - 2]);
    }
}

} // verus!
