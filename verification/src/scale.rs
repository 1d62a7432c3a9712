//! The scale of a fixed-point number and the scales of results.

use crate::radix::{in_digits, Radix};
use crate::word::Word;
use vstd::prelude::*;

verus! {

/// The scale of a fixed-point number: its radix, the digit count of its
/// mantissa and its exponent. A mantissa `m` at this scale stands for
/// `m * radix^exp`.
#[derive(Clone, Copy, Debug, PartialEq, Eq, Hash, Structural)]
pub struct Scale {
    /// Numeral base and signedness of the mantissa.
    pub radix: Radix,
    /// Number of mantissa digits in that base.
    pub digits: u32,
    /// Power of the base that scales the mantissa.
    pub exp: i32,
}

/// The smaller of two integers.
pub open spec fn min_of(a: int, b: int) -> int {
    if a <= b {
        a
    } else {
        b
    }
}

/// The larger of two integers.
pub open spec fn max_of(a: int, b: int) -> int {
    if a >= b {
        a
    } else {
        b
    }
}

impl Scale {
    /// A scale is well formed when its digit count is supported by its radix.
    pub open spec fn wf(self) -> bool {
        self.radix.supports(self.digits as nat)
    }

    /// The native storage of mantissas at this scale.
    pub open spec fn word(self) -> Word {
        self.radix.word(self.digits as nat)
    }

    /// Whether `bits` is a mantissa of at most `digits` digits.
    pub open spec fn in_digits(self, bits: int) -> bool {
        in_digits(self.radix, self.digits as nat, bits)
    }

    /// The scale with the given parts, if they are representable.
    pub open spec fn make(radix: Radix, digits: int, exp: int) -> Option<Scale> {
        if 1 <= digits && radix.supports(digits as nat) && i32::MIN <= exp <= i32::MAX {
            Some(Scale { radix, digits: digits as u32, exp: exp as i32 })
        } else {
            None
        }
    }

    /// Scale of a product: the digit counts add and the exponents add.
    pub open spec fn product_of(self, rhs: Scale) -> Option<Scale> {
        if self.radix == rhs.radix {
            Scale::make(self.radix, self.digits + rhs.digits, self.exp + rhs.exp)
        } else {
            None
        }
    }

    /// Scale of a quotient: the digit counts subtract and the exponents
    /// subtract.
    pub open spec fn quotient_of(self, rhs: Scale) -> Option<Scale> {
        if self.radix == rhs.radix {
            Scale::make(self.radix, self.digits - rhs.digits, self.exp - rhs.exp)
        } else {
            None
        }
    }

    /// Scale of a sum or difference: the finer exponent, and digits enough for
    /// the larger operand at that exponent plus one guard digit for the carry.
    pub open spec fn sum_of(self, rhs: Scale) -> Option<Scale> {
        if self.radix == rhs.radix {
            let exp = min_of(self.exp as int, rhs.exp as int);
            let top = max_of(self.digits + self.exp, rhs.digits + rhs.exp);
            Scale::make(self.radix, top - exp + 1, exp)
        } else {
            None
        }
    }

    /// The scale with the given parts, if the radix supports the digit count.
    pub fn new(radix: Radix, digits: u32, exp: i32) -> (s: Option<Scale>)
        ensures
            s == Scale::make(radix, digits as int, exp as int),
            s is Some <==> radix.supports(digits as nat),
            s is Some ==> s->0.wf(),
    {
        if radix.is_supported(digits) {
            Some(Scale { radix, digits, exp })
        } else {
            None
        }
    }

    /// The native storage of mantissas at this scale.
    pub fn storage(&self) -> (w: Word)
        requires
            self.wf(),
        ensures
            w == self.word(),
            w.signed() == self.radix.signed(),
    {
        self.radix.mantissa(self.digits)
    }

    /// Builds a scale from parts computed in wide integers.
    fn build(radix: Radix, digits: i64, exp: i64) -> (s: Option<Scale>)
        ensures
            s == Scale::make(radix, digits as int, exp as int),
            s is Some ==> s->0.wf(),
    {
        if digits < 1 || digits > 64 || exp < -0x8000_0000 || exp > 0x7fff_ffff {
            return None;
        }
        Scale::new(radix, digits as u32, exp as i32)
    }

    /// Scale of a product: the digit counts add and the exponents add.
    ///
    /// `None` where the radixes differ, the digit count is not supported or
    /// the exponent is out of range.
    pub fn product(&self, rhs: &Scale) -> (s: Option<Scale>)
        ensures
            s == self.product_of(*rhs),
            s is Some ==> s->0.wf() && s->0.radix == self.radix && s->0.digits == self.digits
                + rhs.digits && s->0.exp == self.exp + rhs.exp,
    {
        if self.radix != rhs.radix {
            return None;
        }
        Scale::build(
            self.radix,
            self.digits as i64 + rhs.digits as i64,
            self.exp as i64 + rhs.exp as i64,
        )
    }

    /// Scale of a quotient: the digit counts subtract and the exponents
    /// subtract.
    ///
    /// `None` where the radixes differ, no digit is left or the exponent is
    /// out of range.
    pub fn quotient(&self, rhs: &Scale) -> (s: Option<Scale>)
        ensures
            s == self.quotient_of(*rhs),
            s is Some ==> s->0.wf() && s->0.radix == self.radix && s->0.digits == self.digits
                - rhs.digits && s->0.exp == self.exp - rhs.exp,
    {
        if self.radix != rhs.radix {
            return None;
        }
        Scale::build(
            self.radix,
            self.digits as i64 - rhs.digits as i64,
            self.exp as i64 - rhs.exp as i64,
        )
    }

    /// Scale of a sum or difference: the finer exponent, and digits enough for
    /// the larger operand at that exponent plus one guard digit.
    ///
    /// `None` where the radixes differ or the digit count is not supported.
    pub fn sum(&self, rhs: &Scale) -> (s: Option<Scale>)
        ensures
            s == self.sum_of(*rhs),
            s is Some ==> s->0.wf() && s->0.radix == self.radix && s->0.exp == min_of(
                self.exp as int,
                rhs.exp as int,
            ) && s->0.digits > self.digits && s->0.digits > rhs.digits,
    {
        if self.radix != rhs.radix {
            return None;
        }
        let exp: i64 = if self.exp <= rhs.exp { self.exp as i64 } else { rhs.exp as i64 };
        let left: i64 = self.digits as i64 + self.exp as i64;
        let right: i64 = rhs.digits as i64 + rhs.exp as i64;
        let top: i64 = if left >= right { left } else { right };
        Scale::build(self.radix, top - exp + 1, exp)
    }
}

} // verus!
