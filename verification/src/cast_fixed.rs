//! Conversions into fixed-point numbers, from primitive integers and from
//! other scales, and from fixed-point numbers into primitive integers. Each
//! conversion is the exact rescaling of the number, of which the wrapping
//! discipline keeps the low bits and the checked discipline tests the range.

use crate::cast::{Cast, TryCast};
use crate::error::Error;
use crate::fixed::Fix;
use crate::native::Native;
use crate::rescale::{checked_rescale, rescale, wrapping_rescale};
use crate::scale::Scale;
use crate::word::{lemma_wrap_fixes_held, lift, Word};
use vstd::prelude::*;

verus! {

impl Fix {
    /// The mantissa that stands for the plain integer `v` at `scale`: `v`
    /// times the radix power for an exponent of zero or less, or `v` divided
    /// by it, truncating toward zero, for a positive exponent; of the result
    /// the storage keeps the low bits.
    pub open spec fn cast_bits(scale: Scale, v: int) -> int {
        scale.word().wrap(rescale(scale.radix.base(), v, 0 - scale.exp))
    }

    /// The fixed-point number at `scale` for the plain integer `v`.
    pub open spec fn of_integer(scale: Scale, v: int) -> Fix {
        Fix { bits: Fix::cast_bits(scale, v) as i128, scale }
    }

    /// The range-checked counterpart of `cast_bits`: the exact mantissa where
    /// the storage holds it, else the side on which it leaves the storage.
    pub open spec fn try_cast_bits(scale: Scale, v: int) -> Result<int, Error> {
        scale.word().check(rescale(scale.radix.base(), v, 0 - scale.exp))
    }

    /// The plain integer the value stands for, truncated toward zero: the
    /// mantissa times the radix power for a positive exponent, else divided
    /// by it.
    pub open spec fn integer(self) -> int {
        rescale(self.scale.radix.base(), self.bits as int, self.scale.exp as int)
    }

    /// The value as a native integer of the kind `into`, keeping the low
    /// bits.
    pub open spec fn native(self, into: Word) -> int {
        into.wrap(self.integer())
    }

    /// The range-checked conversion of the value into the native kind `into`:
    /// the integer where the kind holds it, else the side on which it leaves
    /// the kind.
    pub open spec fn try_native(self, into: Word) -> Result<int, Error> {
        into.check(self.integer())
    }

    /// The fixed-point number at `scale` for a number, a native integer or a
    /// fixed-point number of the same radix: the low bits of its exact
    /// mantissa at `scale`. Total; never checks.
    pub fn cast<S: Number>(scale: Scale, value: S) -> (x: Fix)
        requires
            scale.wf(),
            value.converts(scale),
        ensures
            x.bits == scale.word().wrap(value.exact_at(scale)),
            x.scale == scale,
            x.wf(),
    {
        value.cast_at(scale)
    }

    /// The fixed-point number at `scale` for a number, exactly where its
    /// mantissa is a value of the storage; else `TooBig` where the mantissa
    /// lies above the storage and `TooSmall` where it lies below. Never
    /// wraps.
    pub fn try_cast<S: Number>(scale: Scale, value: S) -> (r: Result<Fix, Error>)
        requires
            scale.wf(),
            value.converts(scale),
        ensures
            match r {
                Ok(x) => scale.word().check(value.exact_at(scale)) == Ok::<int, Error>(
                    x.bits as int,
                ) && x.scale == scale && x.wf(),
                Err(e) => scale.word().check(value.exact_at(scale)) == Err::<int, Error>(e),
            },
            r is Ok <==> scale.word().holds(value.exact_at(scale)),
    {
        value.try_cast_at(scale)
    }

    /// The value as a native integer of the kind `into`, keeping the low
    /// bits.
    pub fn to_word(self, into: Word) -> (v: i128)
        requires
            self.wf(),
        ensures
            v == self.native(into),
            into.holds(v as int),
    {
        wrapping_rescale(into, self.scale.radix, self.bits, self.scale.exp as i64)
    }

    /// The value as a native integer of the kind `into`, exactly where the
    /// kind holds it; else the side on which it leaves the kind.
    pub fn try_to_word(self, into: Word) -> (r: Result<i128, Error>)
        requires
            self.wf(),
        ensures
            lift(r) == self.try_native(into),
            r is Ok ==> into.holds(r->Ok_0 as int),
    {
        checked_rescale(into, self.scale.radix, self.bits, self.scale.exp as i64)
    }
}

/// A number that converts into a fixed-point number: a native integer, or a
/// fixed-point number of the same radix.
pub trait Number: Copy + Sized {
    /// What the conversion to the scale `to` asks of the number.
    spec fn converts(self, to: Scale) -> bool;

    /// The mantissa of the number at the scale `to`, computed in unbounded
    /// integers and truncated toward zero.
    spec fn exact_at(self, to: Scale) -> int;

    /// The number at the scale `to`, keeping the low bits of its mantissa.
    fn cast_at(self, to: Scale) -> (x: Fix)
        requires
            to.wf(),
            self.converts(to),
        ensures
            x.bits == to.word().wrap(self.exact_at(to)),
            x.scale == to,
            x.wf(),
    ;

    /// The number at the scale `to`, or the side on which its mantissa
    /// leaves the storage.
    fn try_cast_at(self, to: Scale) -> (r: Result<Fix, Error>)
        requires
            to.wf(),
            self.converts(to),
        ensures
            match r {
                Ok(x) => to.word().check(self.exact_at(to)) == Ok::<int, Error>(x.bits as int)
                    && x.scale == to && x.wf(),
                Err(e) => to.word().check(self.exact_at(to)) == Err::<int, Error>(e),
            },
    ;
}

impl<T: Native> Number for T {
    open spec fn converts(self, to: Scale) -> bool {
        true
    }

    open spec fn exact_at(self, to: Scale) -> int {
        rescale(to.radix.base(), self.value(), 0 - to.exp)
    }

    fn cast_at(self, to: Scale) -> (x: Fix) {
        proof {
            self.lemma_value_held();
        }
        let bits = wrapping_rescale(to.storage(), to.radix, self.widen(), 0 - to.exp as i64);
        Fix { bits, scale: to }
    }

    fn try_cast_at(self, to: Scale) -> (r: Result<Fix, Error>) {
        proof {
            self.lemma_value_held();
        }
        match checked_rescale(to.storage(), to.radix, self.widen(), 0 - to.exp as i64) {
            Ok(bits) => Ok(Fix { bits, scale: to }),
            Err(e) => Err(e),
        }
    }
}

impl Number for Fix {
    open spec fn converts(self, to: Scale) -> bool {
        self.wf() && self.fits_radix(to)
    }

    open spec fn exact_at(self, to: Scale) -> int {
        rescale(self.scale.radix.base(), self.bits as int, self.scale.exp - to.exp)
    }

    fn cast_at(self, to: Scale) -> (x: Fix) {
        self.convert(to)
    }

    fn try_cast_at(self, to: Scale) -> (r: Result<Fix, Error>) {
        self.try_convert(to)
    }
}

impl<D: Native> Cast<Fix> for D {
    open spec fn accepts(value: Fix) -> bool {
        value.wf()
    }

    open spec fn casts(value: Fix, out: D) -> bool {
        out.value() == value.native(D::word())
    }

    fn cast(value: Fix) -> (out: D) {
        let v = value.to_word(D::kind());
        proof {
            lemma_wrap_fixes_held(D::word(), v as int);
        }
        D::narrow(v)
    }
}

impl<D: Native> TryCast<Fix> for D {
    open spec fn accepts(value: Fix) -> bool {
        value.wf()
    }

    open spec fn tries(value: Fix, out: Result<D, Error>) -> bool {
        match out {
            Ok(d) => value.try_native(D::word()) == Ok::<int, Error>(d.value()),
            Err(e) => value.try_native(D::word()) == Err::<int, Error>(e),
        }
    }

    fn try_cast(value: Fix) -> (out: Result<D, Error>) {
        match value.try_to_word(D::kind()) {
            Ok(n) => {
                proof {
                    lemma_wrap_fixes_held(D::word(), n as int);
                }
                Ok(D::narrow(n))
            },
            Err(e) => Err(e),
        }
    }
}

} // verus!
