//! Arithmetic on fixed-point numbers: each operator derives the scale of its
//! result and computes at that scale, wrapping as native arithmetic does.

use crate::fixed::Fix;
use crate::scale::Scale;
use crate::word::{trunc_div, trunc_rem, Word};
use vstd::prelude::*;

verus! {

/// Native integer division: truncates toward zero, for any nonzero divisor.
pub open spec fn trunc_quot(a: int, b: int) -> int {
    if b > 0 {
        trunc_div(a, b)
    } else {
        -trunc_div(a, -b)
    }
}

/// Native integer remainder: has the sign of the dividend, for any nonzero
/// divisor.
pub open spec fn native_rem(a: int, b: int) -> int {
    if b > 0 {
        trunc_rem(a, b)
    } else {
        trunc_rem(a, -b)
    }
}

/// Whether the native division of `a` by `b` in the storage `w` is defined:
/// the divisor is not zero and the quotient does not overflow.
pub open spec fn divides(w: Word, a: int, b: int) -> bool {
    b != 0 && !(w.signed() && a == w.min_value() && b == -1)
}

/// Native division of two values of at most 64 bits.
pub fn native_div(a: i128, b: i128) -> (q: i128)
    requires
        b != 0,
        -0x1_0000_0000_0000_0000 < a < 0x1_0000_0000_0000_0000,
        -0x1_0000_0000_0000_0000 < b < 0x1_0000_0000_0000_0000,
    ensures
        q == trunc_quot(a as int, b as int),
{
    if b > 0 {
        a / b
    } else {
        let m: i128 = -b;
        proof {
            crate::shift::lemma_trunc_div_shrinks(a as int, m as int);
        }
        -(a / m)
    }
}

/// Native remainder of two values of at most 64 bits.
pub fn native_mod(a: i128, b: i128) -> (r: i128)
    requires
        b != 0,
        -0x1_0000_0000_0000_0000 < a < 0x1_0000_0000_0000_0000,
        -0x1_0000_0000_0000_0000 < b < 0x1_0000_0000_0000_0000,
    ensures
        r == native_rem(a as int, b as int),
        a >= 0 ==> 0 <= r <= a,
        a <= 0 ==> a <= r <= 0,
{
    let m: i128 = if b > 0 { b } else { -b };
    proof {
        if a >= 0 {
            vstd::arithmetic::div_mod::lemma_mod_bound(a as int, m as int);
            vstd::arithmetic::div_mod::lemma_mod_decreases(a as nat, m as nat);
        } else {
            vstd::arithmetic::div_mod::lemma_mod_bound(-a as int, m as int);
            vstd::arithmetic::div_mod::lemma_mod_decreases((-a) as nat, m as nat);
        }
    }
    a % m
}

impl Fix {
    /// Mantissa of the negation.
    pub open spec fn neg_bits(self) -> int {
        self.scale.word().wrap(-self.bits)
    }

    /// Mantissa of the sum at the scale `sum`: both operands are converted to
    /// it and added natively.
    pub open spec fn add_bits(self, rhs: Fix, sum: Scale) -> int {
        sum.word().wrap(self.convert_bits(sum) + rhs.convert_bits(sum))
    }

    /// Mantissa of the difference at the scale `sum`.
    pub open spec fn sub_bits(self, rhs: Fix, sum: Scale) -> int {
        sum.word().wrap(self.convert_bits(sum) - rhs.convert_bits(sum))
    }

    /// Mantissa of the product at the scale `product`: both mantissas are
    /// converted to its storage and multiplied natively.
    pub open spec fn mul_bits(self, rhs: Fix, product: Scale) -> int {
        let w = product.word();
        w.wrap(w.wrap(self.bits as int) * w.wrap(rhs.bits as int))
    }

    /// The divisor as the dividend's storage sees it.
    pub open spec fn divisor_bits(self, rhs: Fix) -> int {
        self.scale.word().wrap(rhs.bits as int)
    }

    /// Mantissa of the quotient at the scale `quotient`: the divisor is
    /// narrowed to the dividend's storage, divided natively, and the result
    /// converted to the storage of the quotient.
    pub open spec fn div_bits(self, rhs: Fix, quotient: Scale) -> int {
        quotient.word().wrap(trunc_quot(self.bits as int, self.divisor_bits(rhs)))
    }

    /// Mantissa of the remainder.
    pub open spec fn rem_bits(self, rhs: Fix) -> int {
        native_rem(self.bits as int, rhs.bits as int)
    }

    /// Whether the sum and the difference of two values are defined: both are
    /// well formed and their scales combine.
    pub open spec fn adds(self, rhs: Fix) -> bool {
        self.wf() && rhs.wf() && self.scale.sum_of(rhs.scale) is Some
    }

    /// Whether the product of two values is defined.
    pub open spec fn multiplies(self, rhs: Fix) -> bool {
        self.wf() && rhs.wf() && self.scale.product_of(rhs.scale) is Some
    }

    /// Whether the quotient of two values is defined: the scales combine, the
    /// divisor is not zero in the dividend's storage and the quotient does
    /// not overflow it.
    pub open spec fn divides_by(self, rhs: Fix) -> bool {
        &&& self.wf()
        &&& rhs.wf()
        &&& self.scale.quotient_of(rhs.scale) is Some
        &&& divides(self.scale.word(), self.bits as int, self.divisor_bits(rhs))
    }

    /// The negation of a value.
    pub open spec fn negated(self) -> Fix {
        Fix { bits: self.neg_bits() as i128, scale: self.scale }
    }

    /// The sum of two values.
    pub open spec fn plus(self, rhs: Fix) -> Fix {
        let scale = self.scale.sum_of(rhs.scale)->0;
        Fix { bits: self.add_bits(rhs, scale) as i128, scale }
    }

    /// The difference of two values.
    pub open spec fn minus(self, rhs: Fix) -> Fix {
        let scale = self.scale.sum_of(rhs.scale)->0;
        Fix { bits: self.sub_bits(rhs, scale) as i128, scale }
    }

    /// The product of two values.
    pub open spec fn times(self, rhs: Fix) -> Fix {
        let scale = self.scale.product_of(rhs.scale)->0;
        Fix { bits: self.mul_bits(rhs, scale) as i128, scale }
    }

    /// The quotient of two values.
    pub open spec fn over(self, rhs: Fix) -> Fix {
        let scale = self.scale.quotient_of(rhs.scale)->0;
        Fix { bits: self.div_bits(rhs, scale) as i128, scale }
    }

    /// The value after `other`, converted to its scale, is added in place.
    pub open spec fn increased(self, other: Fix) -> Fix {
        Fix {
            bits: self.scale.word().wrap(self.bits + other.convert_bits(self.scale)) as i128,
            scale: self.scale,
        }
    }

    /// The value after `other`, converted to its scale, is subtracted in
    /// place.
    pub open spec fn decreased(self, other: Fix) -> Fix {
        Fix {
            bits: self.scale.word().wrap(self.bits - other.convert_bits(self.scale)) as i128,
            scale: self.scale,
        }
    }

    /// The remainder of two values of one scale.
    pub open spec fn modulo(self, rhs: Fix) -> Fix {
        Fix { bits: self.rem_bits(rhs) as i128, scale: self.scale }
    }

    /// Adds in place: `other` is converted to the scale of `self` first.
    pub fn add_assign(&mut self, other: Fix)
        requires
            old(self).wf(),
            other.wf(),
            other.fits_radix(old(self).scale),
        ensures
            final(self).scale == old(self).scale,
            final(self).bits == old(self).scale.word().wrap(
                old(self).bits + other.convert_bits(old(self).scale),
            ),
            *final(self) == old(self).increased(other),
            final(self).wf(),
    {
        let b = other.convert(self.scale);
        self.bits = self.scale.storage().wrapping_add(self.bits, b.bits);
    }

    /// Subtracts in place: `other` is converted to the scale of `self` first.
    pub fn sub_assign(&mut self, other: Fix)
        requires
            old(self).wf(),
            other.wf(),
            other.fits_radix(old(self).scale),
        ensures
            final(self).scale == old(self).scale,
            final(self).bits == old(self).scale.word().wrap(
                old(self).bits - other.convert_bits(old(self).scale),
            ),
            *final(self) == old(self).decreased(other),
            final(self).wf(),
    {
        let b = other.convert(self.scale);
        self.bits = self.scale.storage().wrapping_sub(self.bits, b.bits);
    }

    /// Multiplies the mantissa by a bare scalar of its storage; the scale
    /// stays.
    pub fn mul_assign(&mut self, scalar: i128)
        requires
            old(self).wf(),
            old(self).scale.word().holds(scalar as int),
        ensures
            final(self).scale == old(self).scale,
            final(self).bits == old(self).scale.word().wrap(old(self).bits * scalar),
            final(self).wf(),
    {
        self.bits = self.scale.storage().wrapping_mul(self.bits, scalar);
    }

    /// Divides the mantissa by a bare scalar of its storage; the scale stays.
    pub fn div_assign(&mut self, scalar: i128)
        requires
            old(self).wf(),
            old(self).scale.word().holds(scalar as int),
            divides(old(self).scale.word(), old(self).bits as int, scalar as int),
        ensures
            final(self).scale == old(self).scale,
            final(self).bits == trunc_quot(old(self).bits as int, scalar as int),
            final(self).wf(),
    {
        proof {
            lemma_quot_held(self.scale.word(), self.bits as int, scalar as int);
        }
        self.bits = native_div(self.bits, scalar);
    }

    /// Takes the remainder in place; both values have one scale.
    pub fn rem_assign(&mut self, other: Fix)
        requires
            old(self).wf(),
            other.wf(),
            old(self).scale == other.scale,
            divides(old(self).scale.word(), old(self).bits as int, other.bits as int),
        ensures
            final(self).scale == old(self).scale,
            final(self).bits == old(self).rem_bits(other),
            final(self).wf(),
    {
        self.bits = native_mod(self.bits, other.bits);
    }
}

impl core::ops::Neg for Fix {
    type Output = Fix;

    /// Negation; keeps the scale. Defined for signed mantissas.
    fn neg(self) -> (x: Fix)
        ensures
            x.bits == self.neg_bits(),
            x.scale == self.scale,
            x.wf(),
    {
        Fix { bits: self.scale.storage().wrapping_neg(self.bits), scale: self.scale }
    }
}

impl vstd::std_specs::ops::NegSpecImpl for Fix {
    open spec fn obeys_neg_spec() -> bool {
        true
    }

    open spec fn neg_req(self) -> bool {
        self.wf() && self.scale.radix.signed()
    }

    open spec fn neg_spec(self) -> Fix {
        self.negated()
    }
}

impl core::ops::Add for Fix {
    type Output = Fix;

    /// Sum, at the scale that `Scale::sum` derives.
    fn add(self, rhs: Fix) -> (x: Fix)
        ensures
            x.scale == self.scale.sum_of(rhs.scale)->0,
            x.bits == self.add_bits(rhs, x.scale),
            x.wf(),
    {
        let scale = self.scale.sum(&rhs.scale).unwrap();
        let a = self.convert(scale);
        let b = rhs.convert(scale);
        Fix { bits: scale.storage().wrapping_add(a.bits, b.bits), scale }
    }
}

impl vstd::std_specs::ops::AddSpecImpl for Fix {
    open spec fn obeys_add_spec() -> bool {
        true
    }

    open spec fn add_req(self, rhs: Fix) -> bool {
        self.adds(rhs)
    }

    open spec fn add_spec(self, rhs: Fix) -> Fix {
        self.plus(rhs)
    }
}

impl core::ops::Sub for Fix {
    type Output = Fix;

    /// Difference, at the scale that `Scale::sum` derives.
    fn sub(self, rhs: Fix) -> (x: Fix)
        ensures
            x.scale == self.scale.sum_of(rhs.scale)->0,
            x.bits == self.sub_bits(rhs, x.scale),
            x.wf(),
    {
        let scale = self.scale.sum(&rhs.scale).unwrap();
        let a = self.convert(scale);
        let b = rhs.convert(scale);
        Fix { bits: scale.storage().wrapping_sub(a.bits, b.bits), scale }
    }
}

impl vstd::std_specs::ops::SubSpecImpl for Fix {
    open spec fn obeys_sub_spec() -> bool {
        true
    }

    open spec fn sub_req(self, rhs: Fix) -> bool {
        self.adds(rhs)
    }

    open spec fn sub_spec(self, rhs: Fix) -> Fix {
        self.minus(rhs)
    }
}

impl core::ops::Mul for Fix {
    type Output = Fix;

    /// Product, at the scale that `Scale::product` derives.
    fn mul(self, rhs: Fix) -> (x: Fix)
        ensures
            x.scale == self.scale.product_of(rhs.scale)->0,
            x.bits == self.mul_bits(rhs, x.scale),
            x.wf(),
    {
        let scale = self.scale.product(&rhs.scale).unwrap();
        let w = scale.storage();
        let a = w.wrapping(self.bits);
        let b = w.wrapping(rhs.bits);
        Fix { bits: w.wrapping_mul(a, b), scale }
    }
}

impl vstd::std_specs::ops::MulSpecImpl for Fix {
    open spec fn obeys_mul_spec() -> bool {
        true
    }

    open spec fn mul_req(self, rhs: Fix) -> bool {
        self.multiplies(rhs)
    }

    open spec fn mul_spec(self, rhs: Fix) -> Fix {
        self.times(rhs)
    }
}

impl core::ops::Div for Fix {
    type Output = Fix;

    /// Quotient, at the scale that `Scale::quotient` derives.
    fn div(self, rhs: Fix) -> (x: Fix)
        ensures
            x.scale == self.scale.quotient_of(rhs.scale)->0,
            x.bits == self.div_bits(rhs, x.scale),
            x.wf(),
    {
        let scale = self.scale.quotient(&rhs.scale).unwrap();
        let a = self.bits;
        let b = self.scale.storage().wrapping(rhs.bits);
        let c = scale.storage().wrapping(native_div(a, b));
        Fix { bits: c, scale }
    }
}

impl vstd::std_specs::ops::DivSpecImpl for Fix {
    open spec fn obeys_div_spec() -> bool {
        true
    }

    open spec fn div_req(self, rhs: Fix) -> bool {
        self.divides_by(rhs)
    }

    open spec fn div_spec(self, rhs: Fix) -> Fix {
        self.over(rhs)
    }
}

impl core::ops::Rem for Fix {
    type Output = Fix;

    /// Remainder of two values of one scale; the result has that scale.
    fn rem(self, rhs: Fix) -> (x: Fix)
        ensures
            x.bits == self.rem_bits(rhs),
            x.scale == self.scale,
            x.wf(),
    {
        Fix { bits: native_mod(self.bits, rhs.bits), scale: self.scale }
    }
}

impl vstd::std_specs::ops::RemSpecImpl for Fix {
    open spec fn obeys_rem_spec() -> bool {
        true
    }

    open spec fn rem_req(self, rhs: Fix) -> bool {
        &&& self.wf()
        &&& rhs.wf()
        &&& self.scale == rhs.scale
        &&& divides(self.scale.word(), self.bits as int, rhs.bits as int)
    }

    open spec fn rem_spec(self, rhs: Fix) -> Fix {
        self.modulo(rhs)
    }
}

/// A defined native quotient of two values of a storage is a value of it.
pub proof fn lemma_quot_held(w: Word, a: int, b: int)
    requires
        w.holds(a),
        w.holds(b),
        divides(w, a, b),
    ensures
        w.holds(trunc_quot(a, b)),
{
    let m = if b > 0 { b } else { -b };
    crate::shift::lemma_trunc_div_shrinks(a, m);
    if b < 0 && a < 0 {
        // the quotient is -trunc_div(a, m): positive, at most -a
        if b == -1 {
            assert(trunc_div(a, 1) == a);
        } else {
            assert(m >= 2);
            vstd::arithmetic::div_mod::lemma_div_decreases(-a, m);
        }
    }
}

} // verus!
