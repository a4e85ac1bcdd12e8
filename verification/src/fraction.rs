//! Proportions between zero and one, kept exactly as a count of millionths.

use vstd::prelude::*;
use crate::text::{decimal, padded, push_char, push_decimal, push_padded};

verus! {

/// The number of millionths in one whole.
pub const MILLION: u32 = 1_000_000;

/// A proportion in the closed range from zero to one, in steps of one millionth.
#[derive(Clone, Copy, Debug, PartialEq, Eq, Structural)]
pub struct Fraction {
    millionths: u32,
}

/// `num / den` rounded to the nearest integer, a half going up.
pub open spec fn round_div(num: nat, den: nat) -> nat
    recommends
        den > 0,
{
    (2 * num + den) / (2 * den)
}

/// The proportion of `millionths` millionths taken of `n`, rounded down.
pub open spec fn floor_of(millionths: nat, n: nat) -> nat {
    (millionths * n / 1_000_000) as nat
}

/// A count of millionths written with six decimals, as in `0.250000`.
pub open spec fn six_decimals(millionths: nat) -> Seq<char> {
    decimal(millionths / 1_000_000).push('.') + padded(millionths % 1_000_000, 6)
}

impl Fraction {
    /// The count of millionths is at most one whole.
    #[verifier::type_invariant]
    pub closed spec fn in_range(self) -> bool {
        self.millionths <= MILLION
    }

    /// The proportion as a count of millionths.
    pub closed spec fn value(self) -> nat {
        self.millionths as nat
    }

    /// Whether the count of millionths is at most one whole. Every value that
    /// executable code can hold satisfies this.
    pub open spec fn valid(self) -> bool {
        self.value() <= MILLION
    }

    /// The proportion of `n` millionths, for `n` up to one million.
    pub closed spec fn with_value(n: nat) -> Fraction {
        Fraction { millionths: n as u32 }
    }

    /// `with_value` and `value` undo each other.
    pub proof fn with_value_is(n: nat)
        requires
            n <= MILLION,
        ensures
            Fraction::with_value(n).value() == n,
            Fraction::with_value(n).valid(),
    {
    }

    /// A proportion is the one of its own count of millionths.
    pub proof fn with_value_of_value(self)
        ensures
            Fraction::with_value(self.value()) == self,
    {
    }

    /// The proportion of `millionths` millionths, if that is at most one whole.
    pub fn from_millionths(millionths: u32) -> (r: Option<Fraction>)
        ensures
            millionths <= MILLION ==> r == Some(Fraction::with_value(millionths as nat))
                && r->0.value() == millionths,
            millionths > MILLION ==> r is None,
    {
        if millionths <= MILLION {
            Some(Fraction { millionths })
        } else {
            None
        }
    }

    /// The proportion of nothing.
    pub fn zero() -> (r: Fraction)
        ensures
            r == Fraction::with_value(0),
            r.value() == 0,
    {
        Fraction { millionths: 0 }
    }

    /// The proportion of the whole.
    pub fn one() -> (r: Fraction)
        ensures
            r == Fraction::with_value(1_000_000),
            r.value() == MILLION,
    {
        Fraction { millionths: MILLION }
    }

    /// The proportion as a count of millionths.
    pub fn millionths(&self) -> (n: u32)
        ensures
            n == self.value(),
            n <= MILLION,
    {
        proof {
            use_type_invariant(self);
        }
        self.millionths
    }

    /// `self * n`, rounded down to a whole number.
    pub fn scale_floor(&self, n: u32) -> (r: u32)
        ensures
            r == floor_of(self.value(), n as nat),
    {
        proof {
            use_type_invariant(self);
        }
        let m: u64 = self.millionths as u64;
        let k: u64 = n as u64;
        assert(m * k <= 1_000_000 * k) by (nonlinear_arith)
            requires
                m <= 1_000_000,
        ;
        let q: u64 = (m * k) / 1_000_000;
        q as u32
    }

    /// Appends the proportion with six decimals.
    pub fn push_six_decimals(&self, out: &mut String)
        ensures
            final(out)@ == old(out)@ + six_decimals(self.value()),
    {
        let m: u64 = self.millionths as u64;
        push_decimal(out, m / 1_000_000);
        push_char(out, '.');
        push_padded(out, m % 1_000_000, 6);
    }
}

} // verus!
