//! What the derived scales guarantee: operands within their digit counts
//! never overflow.

use crate::exact::lemma_word_grows;
use crate::fixed::Fix;
use crate::power::{lemma_pow_grows, lemma_pow_step};
use crate::radix::{in_digits, lemma_digits_fit_word, Radix, MIN_WORD_BITS};
use crate::scale::{max_of, min_of, Scale};
use crate::word::{lemma_product_bound, lemma_wrap_fixes_held};
use vstd::arithmetic::power::pow;
use vstd::prelude::*;

verus! {

/// A mantissa of few digits is one of more digits.
pub proof fn lemma_digits_grow(r: Radix, fewer: nat, more: nat, v: int)
    requires
        1 <= fewer <= more,
        in_digits(r, fewer, v),
    ensures
        in_digits(r, more, v),
{
    lemma_pow_grows(r.base(), fewer, more);
    lemma_pow_grows(r.base(), (fewer - 1) as nat, (more - 1) as nat);
}

/// The product of a mantissa of `m` digits and one of `n` digits has at most
/// `m + n` digits.
pub proof fn lemma_digits_of_product(r: Radix, m: nat, n: nat, a: int, b: int)
    requires
        m >= 1,
        n >= 1,
        in_digits(r, m, a),
        in_digits(r, n, b),
    ensures
        in_digits(r, m + n, a * b),
{
    let base = r.base();
    match r {
        Radix::P2 => {
            let x = pow(2, (m - 1) as nat);
            let y = pow(2, (n - 1) as nat);
            let z = pow(2, (m + n - 1) as nat);
            lemma_pow_grows(2, 0, (m - 1) as nat);
            lemma_pow_grows(2, 0, (n - 1) as nat);
            vstd::arithmetic::power::lemma_pow_adds(2, (m - 1) as nat, (n - 1) as nat);
            lemma_pow_step(2, (m + n - 2) as nat);
            assert(z == 2 * (x * y));
            assert(-(x * y) <= a * b <= x * y) by (nonlinear_arith)
                requires
                    -x <= a <= x,
                    -y <= b <= y,
            ;
            assert(x * y >= 1) by (nonlinear_arith)
                requires
                    x >= 1,
                    y >= 1,
            ;
        },
        _ => {
            let x = pow(base, m);
            let y = pow(base, n);
            lemma_pow_grows(base, 0, m);
            lemma_pow_grows(base, 0, n);
            vstd::arithmetic::power::lemma_pow_adds(base, m, n);
            assert(-((x - 1) * (y - 1)) <= a * b <= (x - 1) * (y - 1)) by (nonlinear_arith)
                requires
                    -(x - 1) <= a <= x - 1,
                    -(y - 1) <= b <= y - 1,
            ;
            assert((x - 1) * (y - 1) <= x * y - 1) by (nonlinear_arith)
                requires
                    x >= 1,
                    y >= 1,
            ;
            if !r.signed() {
                assert(a * b >= 0) by (nonlinear_arith)
                    requires
                        a >= 0,
                        b >= 0,
                ;
            }
        },
    }
}

/// A mantissa of `m` digits moved up by `d` exponent steps has at most
/// `m + d` digits.
pub proof fn lemma_digits_of_scaled(r: Radix, m: nat, d: nat, a: int)
    requires
        m >= 1,
        in_digits(r, m, a),
    ensures
        in_digits(r, m + d, a * pow(r.base(), d)),
{
    let base = r.base();
    let p = pow(base, d);
    lemma_pow_grows(base, 0, d);
    match r {
        Radix::P2 => {
            let x = pow(2, (m - 1) as nat);
            lemma_pow_grows(2, 0, (m - 1) as nat);
            vstd::arithmetic::power::lemma_pow_adds(2, (m - 1) as nat, d);
            assert(-(x * p) <= a * p <= (x - 1) * p) by (nonlinear_arith)
                requires
                    -x <= a <= x - 1,
                    p >= 1,
            ;
            assert((x - 1) * p <= x * p - 1) by (nonlinear_arith)
                requires
                    p >= 1,
            ;
        },
        _ => {
            let x = pow(base, m);
            lemma_pow_grows(base, 0, m);
            vstd::arithmetic::power::lemma_pow_adds(base, m, d);
            assert(-((x - 1) * p) <= a * p <= (x - 1) * p) by (nonlinear_arith)
                requires
                    -(x - 1) <= a <= x - 1,
                    p >= 1,
            ;
            assert((x - 1) * p <= x * p - 1) by (nonlinear_arith)
                requires
                    p >= 1,
            ;
            if !r.signed() {
                assert(a * p >= 0) by (nonlinear_arith)
                    requires
                        a >= 0,
                        p >= 1,
                ;
            }
        },
    }
}

/// The sum of two mantissas of `n` digits has at most `n + 1` digits, and so
/// has their difference where the mantissa is signed.
pub proof fn lemma_digits_of_sum(r: Radix, n: nat, a: int, b: int)
    requires
        n >= 1,
        in_digits(r, n, a),
        in_digits(r, n, b),
    ensures
        in_digits(r, n + 1, a + b),
        r.signed() ==> in_digits(r, n + 1, a - b),
{
    let base = r.base();
    lemma_pow_step(base, n);
    lemma_pow_step(base, (n - 1) as nat);
    lemma_pow_grows(base, 0, n);
    lemma_pow_grows(base, 0, (n - 1) as nat);
}

/// The product never overflows: for operands within the digit counts of
/// their scales, the mantissa of the product is the exact product of the
/// mantissas and lies within the digit count of the product's scale.
pub proof fn lemma_mul_exact(a: Fix, b: Fix)
    requires
        a.wf(),
        b.wf(),
        a.scale.in_digits(a.bits as int),
        b.scale.in_digits(b.bits as int),
        a.scale.product_of(b.scale) is Some,
    ensures
        ({
            let p = a.scale.product_of(b.scale)->0;
            &&& p.digits == a.scale.digits + b.scale.digits
            &&& p.exp == a.scale.exp + b.scale.exp
            &&& a.mul_bits(b, p) == a.bits * b.bits
            &&& p.in_digits(a.bits * b.bits)
        }),
{
    let p = a.scale.product_of(b.scale)->0;
    let r = p.radix;
    let w = p.word();
    lemma_digits_of_product(
        r,
        a.scale.digits as nat,
        b.scale.digits as nat,
        a.bits as int,
        b.bits as int,
    );
    lemma_digits_fit_word(r, p.digits as nat, MIN_WORD_BITS as nat);
    lemma_word_grows(r, a.scale.digits as nat, p.digits as nat);
    lemma_word_grows(r, b.scale.digits as nat, p.digits as nat);
    lemma_wrap_fixes_held(w, a.bits as int);
    lemma_wrap_fixes_held(w, b.bits as int);
    lemma_wrap_fixes_held(w, a.bits * b.bits);
}

/// The product of two well-formed values whose mantissas multiply within the
/// storage of the product has the product of the mantissas as its mantissa.
pub proof fn lemma_times_exact(a: Fix, b: Fix)
    requires
        a.multiplies(b),
        a.scale.product_of(b.scale)->0.word().holds(a.bits * b.bits),
    ensures
        a.times(b).bits == a.bits * b.bits,
        a.times(b).wf(),
        a.times(b).scale == a.scale.product_of(b.scale)->0,
{
    let p = a.scale.product_of(b.scale)->0;
    lemma_word_grows(p.radix, a.scale.digits as nat, p.digits as nat);
    lemma_word_grows(p.radix, b.scale.digits as nat, p.digits as nat);
    lemma_wrap_fixes_held(p.word(), a.bits as int);
    lemma_wrap_fixes_held(p.word(), b.bits as int);
    lemma_wrap_fixes_held(p.word(), a.bits * b.bits);
}

/// An operand within the digit count of its scale converts to the scale of a
/// sum exactly, and stays a full digit short of that scale's digit count.
pub proof fn lemma_convert_to_sum(a: Fix, other: Scale)
    requires
        a.wf(),
        other.wf(),
        a.scale.in_digits(a.bits as int),
        a.scale.sum_of(other) is Some,
    ensures
        ({
            let s = a.scale.sum_of(other)->0;
            let exact = a.bits * pow(s.radix.base(), (a.scale.exp - s.exp) as nat);
            &&& s == other.sum_of(a.scale)->0
            &&& a.convert_bits(s) == exact
            &&& in_digits(s.radix, (s.digits - 1) as nat, exact)
        }),
{
    let s = a.scale.sum_of(other)->0;
    let r = s.radix;
    let w = s.word();
    let d = (a.scale.exp - s.exp) as nat;
    let exact = a.bits * pow(r.base(), d);
    lemma_digits_of_scaled(r, a.scale.digits as nat, d, a.bits as int);
    lemma_digits_grow(r, a.scale.digits as nat + d, (s.digits - 1) as nat, exact);
    lemma_digits_grow(r, (s.digits - 1) as nat, s.digits as nat, exact);
    lemma_digits_fit_word(r, s.digits as nat, MIN_WORD_BITS as nat);
    lemma_word_grows(r, a.scale.digits as nat, s.digits as nat);
    lemma_wrap_fixes_held(w, a.bits as int);
    lemma_wrap_fixes_held(w, exact);
}

/// The sum never overflows: for operands within the digit counts of their
/// scales, both convert exactly to the finer exponent, and the mantissa of
/// the sum is the exact sum, within the digit count of the sum's scale. The
/// same holds of the difference of signed mantissas.
pub proof fn lemma_add_exact(a: Fix, b: Fix)
    requires
        a.wf(),
        b.wf(),
        a.scale.in_digits(a.bits as int),
        b.scale.in_digits(b.bits as int),
        a.scale.sum_of(b.scale) is Some,
    ensures
        ({
            let s = a.scale.sum_of(b.scale)->0;
            let base = s.radix.base();
            let left = a.bits * pow(base, (a.scale.exp - s.exp) as nat);
            let right = b.bits * pow(base, (b.scale.exp - s.exp) as nat);
            &&& s.exp == min_of(a.scale.exp as int, b.scale.exp as int)
            &&& s.digits > max_of(a.scale.digits as int, b.scale.digits as int)
            &&& a.add_bits(b, s) == left + right
            &&& s.in_digits(left + right)
            &&& s.radix.signed() ==> a.sub_bits(b, s) == left - right && s.in_digits(left - right)
        }),
{
    let s = a.scale.sum_of(b.scale)->0;
    let r = s.radix;
    let base = r.base();
    let left = a.bits * pow(base, (a.scale.exp - s.exp) as nat);
    let right = b.bits * pow(base, (b.scale.exp - s.exp) as nat);
    lemma_convert_to_sum(a, b.scale);
    lemma_convert_to_sum(b, a.scale);
    lemma_digits_of_sum(r, (s.digits - 1) as nat, left, right);
    lemma_digits_fit_word(r, s.digits as nat, MIN_WORD_BITS as nat);
    lemma_wrap_fixes_held(s.word(), left + right);
    if r.signed() {
        lemma_wrap_fixes_held(s.word(), left - right);
    }
}

} // verus!
