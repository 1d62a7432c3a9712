//! The fixed-point value type and its conversions between scales.

use crate::error::Error;
use crate::exact::{lemma_convert_wraps, lemma_try_convert_exact};
use crate::rescale::rescale;
use crate::scale::Scale;
use crate::shift::{checked_shift, checked_shift_exp, shift, shift_exp};
use crate::word::lift;
use vstd::prelude::*;

verus! {

/// A fixed-point number: a mantissa tagged with its scale. It stands for
/// `bits * radix^exp`.
///
/// The scale of a value never changes; a conversion yields a new value.
#[derive(Clone, Copy, Debug, PartialEq, Eq, Hash, Structural)]
pub struct Fix {
    /// The mantissa, a value of the scale's native storage.
    pub bits: i128,
    /// The scale tag.
    pub scale: Scale,
}

/// Chains two checked steps: the second runs on the result of the first.
pub open spec fn and_then(
    first: Result<int, Error>,
    second: spec_fn(int) -> Result<int, Error>,
) -> Result<int, Error> {
    match first {
        Ok(v) => second(v),
        Err(e) => Err(e),
    }
}

impl Fix {
    /// A value is well formed when its scale is and its mantissa is a value of
    /// the scale's storage.
    pub open spec fn wf(self) -> bool {
        self.scale.wf() && self.scale.word().holds(self.bits as int)
    }

    /// Whether the scales of two values share a radix: the condition under
    /// which one can be re-expressed at the scale of the other.
    pub open spec fn fits_radix(self, to: Scale) -> bool {
        self.scale.radix == to.radix
    }

    /// The mantissa after a change of exponent alone.
    pub open spec fn exp_bits(self, exp: i32) -> int {
        shift(self.scale.word(), self.scale.radix.base(), self.bits as int, self.scale.exp - exp)
    }

    /// The mantissa after a change of digit count alone: a native narrowing or
    /// widening conversion.
    pub open spec fn width_bits(self, digits: u32) -> int {
        self.scale.radix.word(digits as nat).wrap(self.bits as int)
    }

    /// The mantissa of the same logical value at the scale `to`.
    ///
    /// A growing digit count widens the storage before the exponent moves; a
    /// shrinking one moves the exponent before the storage narrows.
    pub open spec fn convert_bits(self, to: Scale) -> int {
        let delta = self.scale.exp - to.exp;
        let base = self.scale.radix.base();
        if self.scale.digits < to.digits {
            shift(to.word(), base, to.word().wrap(self.bits as int), delta)
        } else {
            to.word().wrap(shift(self.scale.word(), base, self.bits as int, delta))
        }
    }

    /// The same logical value at the scale `to`.
    pub open spec fn converted(self, to: Scale) -> Fix {
        Fix { bits: self.convert_bits(to) as i128, scale: to }
    }

    /// The range-checked counterpart of `convert_bits`.
    pub open spec fn try_convert_bits(self, to: Scale) -> Result<int, Error> {
        let delta = self.scale.exp - to.exp;
        let base = self.scale.radix.base();
        if self.scale.digits < to.digits {
            and_then(
                to.word().check(self.bits as int),
                |b: int| checked_shift(to.word(), base, b, delta),
            )
        } else {
            and_then(
                checked_shift(self.scale.word(), base, self.bits as int, delta),
                |b: int| to.word().check(b),
            )
        }
    }

    /// Wraps a raw, already scaled mantissa without transforming it.
    pub fn new(scale: Scale, bits: i128) -> (x: Fix)
        requires
            scale.wf(),
            scale.word().holds(bits as int),
        ensures
            x.bits == bits,
            x.scale == scale,
            x.wf(),
    {
        Fix { bits, scale }
    }

    /// The smallest value of a scale.
    pub fn min(scale: Scale) -> (x: Fix)
        requires
            scale.wf(),
        ensures
            x.bits == scale.word().min_value(),
            x.scale == scale,
            x.wf(),
    {
        Fix { bits: scale.storage().min(), scale }
    }

    /// The largest value of a scale.
    pub fn max(scale: Scale) -> (x: Fix)
        requires
            scale.wf(),
        ensures
            x.bits == scale.word().max_value(),
            x.scale == scale,
            x.wf(),
    {
        Fix { bits: scale.storage().max(), scale }
    }

    /// Re-expresses the value with another exponent, keeping radix and digits.
    pub fn into_exp(self, exp: i32) -> (x: Fix)
        requires
            self.wf(),
        ensures
            x.bits == self.exp_bits(exp),
            x.scale == (Scale { exp, ..self.scale }),
            x.wf(),
    {
        let w = self.scale.storage();
        let delta: i64 = self.scale.exp as i64 - exp as i64;
        let bits = shift_exp(w, self.scale.radix, self.bits, delta);
        Fix { bits, scale: Scale { radix: self.scale.radix, digits: self.scale.digits, exp } }
    }

    /// Re-expresses the value with another digit count, keeping radix and
    /// exponent: the mantissa is converted to the new storage as a native
    /// integer conversion would.
    pub fn into_bits(self, digits: u32) -> (x: Fix)
        requires
            self.wf(),
            self.scale.radix.supports(digits as nat),
        ensures
            x.bits == self.width_bits(digits),
            x.scale == (Scale { digits, ..self.scale }),
            x.wf(),
    {
        let w = self.scale.radix.mantissa(digits);
        Fix {
            bits: w.wrapping(self.bits),
            scale: Scale { radix: self.scale.radix, digits, exp: self.scale.exp },
        }
    }

    /// Re-expresses the value at the scale `to`, wrapping where the result
    /// does not fit.
    pub fn convert(self, to: Scale) -> (x: Fix)
        requires
            self.wf(),
            to.wf(),
            self.fits_radix(to),
        ensures
            x.bits == self.convert_bits(to),
            x.bits == to.word().wrap(
                rescale(self.scale.radix.base(), self.bits as int, self.scale.exp - to.exp),
            ),
            x.scale == to,
            x == self.converted(to),
            x.wf(),
    {
        proof {
            lemma_convert_wraps(self, to);
        }
        if self.scale.digits < to.digits {
            self.into_bits(to.digits).into_exp(to.exp)
        } else {
            self.into_exp(to.exp).into_bits(to.digits)
        }
    }

    /// Re-expresses the value at the scale `to`, exactly where the rescaled
    /// mantissa is a value of the storage of `to`; else `TooBig` where it lies
    /// above the largest value and `TooSmall` where it lies below the
    /// smallest.
    pub fn try_convert(self, to: Scale) -> (r: Result<Fix, Error>)
        requires
            self.wf(),
            to.wf(),
            self.fits_radix(to),
        ensures
            match r {
                Ok(x) => self.try_convert_bits(to) == Ok::<int, Error>(x.bits as int) && x.scale
                    == to && x.wf(),
                Err(e) => self.try_convert_bits(to) == Err::<int, Error>(e),
            },
            self.try_convert_bits(to) == to.word().check(
                rescale(self.scale.radix.base(), self.bits as int, self.scale.exp - to.exp),
            ),
            r is Ok <==> to.word().holds(
                rescale(self.scale.radix.base(), self.bits as int, self.scale.exp - to.exp),
            ),
    {
        proof {
            lemma_try_convert_exact(self, to);
        }
        let from = self.scale.storage();
        let into = to.storage();
        let delta: i64 = self.scale.exp as i64 - to.exp as i64;
        let bits = if self.scale.digits < to.digits {
            match into.checked_from(from, self.bits) {
                Ok(wide) => checked_shift_exp(into, to.radix, wide, delta),
                Err(e) => Err(e),
            }
        } else {
            match checked_shift_exp(from, to.radix, self.bits, delta) {
                Ok(moved) => into.checked_from(from, moved),
                Err(e) => Err(e),
            }
        };
        match bits {
            Ok(bits) => Ok(Fix { bits, scale: to }),
            Err(e) => Err(e),
        }
    }
}

} // verus!
