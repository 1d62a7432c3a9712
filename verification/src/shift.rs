//! Moving a mantissa between exponents inside one storage.

use crate::error::Error;
use crate::power::bounded_pow;
use crate::radix::Radix;
use crate::word::{lemma_wrap_mul, lift, trunc_div, Word};
use vstd::arithmetic::power::pow;
use vstd::prelude::*;

verus! {

/// A mantissa moved by `delta` exponent steps inside the storage `w`.
///
/// For `delta >= 0` the mantissa is multiplied by `base^delta` and wrapped
/// into `w`; otherwise it is divided by `base^-delta`, truncating toward zero.
pub open spec fn shift(w: Word, base: int, bits: int, delta: int) -> int {
    if delta >= 0 {
        w.wrap(bits * pow(base, delta as nat))
    } else {
        trunc_div(bits, pow(base, (-delta) as nat))
    }
}

/// The range-checked counterpart of `shift`: the multiplication fails where
/// the product is not a value of `w`.
pub open spec fn checked_shift(w: Word, base: int, bits: int, delta: int) -> Result<int, Error> {
    if delta >= 0 {
        w.check(bits * pow(base, delta as nat))
    } else {
        Ok(trunc_div(bits, pow(base, (-delta) as nat)))
    }
}

/// Truncating division by a positive divisor never grows the magnitude and
/// keeps the sign.
pub proof fn lemma_trunc_div_shrinks(a: int, d: int)
    requires
        d >= 1,
    ensures
        a >= 0 ==> 0 <= trunc_div(a, d) <= a,
        a <= 0 ==> a <= trunc_div(a, d) <= 0,
        -d < a < d ==> trunc_div(a, d) == 0,
{
    if a >= 0 {
        vstd::arithmetic::div_mod::lemma_div_pos_is_pos(a, d);
        vstd::arithmetic::div_mod::lemma_div_nonincreasing(a, d);
        if a < d {
            vstd::arithmetic::div_mod::lemma_basic_div(a, d);
        }
    } else {
        vstd::arithmetic::div_mod::lemma_div_pos_is_pos(-a, d);
        vstd::arithmetic::div_mod::lemma_div_nonincreasing(-a, d);
        if -a < d {
            vstd::arithmetic::div_mod::lemma_basic_div(-a, d);
        }
    }
}

/// `bits / base^n`, truncated toward zero.
pub fn scale_down(radix: Radix, bits: i128, n: u32) -> (r: i128)
    requires
        -0x1_0000_0000_0000_0000 < bits < 0x1_0000_0000_0000_0000,
    ensures
        r == trunc_div(bits as int, pow(radix.base(), n as nat)),
        bits >= 0 ==> 0 <= r <= bits,
        bits <= 0 ==> bits <= r <= 0,
{
    proof {
        crate::power::lemma_pow_grows(radix.base(), 0, n as nat);
        lemma_trunc_div_shrinks(bits as int, pow(radix.base(), n as nat));
    }
    match bounded_pow(radix.base_value(), n, 0x1_0000_0000_0000_0000) {
        Some(ratio) => bits / ratio,
        None => 0,
    }
}

/// Moves a mantissa of the storage `w` by `delta` exponent steps, wrapping as
/// native multiplication does.
pub fn shift_exp(w: Word, radix: Radix, bits: i128, delta: i64) -> (r: i128)
    requires
        w.holds(bits as int),
        -0x1_0000_0000 < delta < 0x1_0000_0000,
    ensures
        r == shift(w, radix.base(), bits as int, delta as int),
        w.holds(r as int),
{
    if delta >= 0 {
        let ratio = radix.wrapping_ratio(w, delta as u32);
        proof {
            lemma_wrap_mul(w, bits as int, pow(radix.base(), delta as nat));
        }
        w.wrapping_mul(bits, ratio)
    } else {
        scale_down(radix, bits, (-delta) as u32)
    }
}

/// Moves a mantissa of the storage `w` by `delta` exponent steps, failing
/// where the result is not a value of `w`.
pub fn checked_shift_exp(w: Word, radix: Radix, bits: i128, delta: i64) -> (r: Result<
    i128,
    Error,
>)
    requires
        w.holds(bits as int),
        -0x1_0000_0000 < delta < 0x1_0000_0000,
    ensures
        lift(r) == checked_shift(w, radix.base(), bits as int, delta as int),
        r is Ok ==> w.holds(r->Ok_0 as int),
{
    if delta >= 0 {
        let cap: i128 = 0xffff_ffff_ffff_ffff;
        match bounded_pow(radix.base_value(), delta as u32, cap) {
            Some(ratio) => w.checked_mul(bits, ratio),
            None => {
                let ghost p = pow(radix.base(), delta as nat);
                if bits == 0 {
                    assert(bits * p == 0) by (nonlinear_arith)
                        requires
                            bits == 0,
                    ;
                    Ok(0)
                } else if bits > 0 {
                    assert(bits * p > 0xffff_ffff_ffff_ffff) by (nonlinear_arith)
                        requires
                            bits >= 1,
                            p > 0xffff_ffff_ffff_ffff,
                    ;
                    Err(Error::TooBig)
                } else {
                    assert(bits * p < -0xffff_ffff_ffff_ffff) by (nonlinear_arith)
                        requires
                            bits <= -1,
                            p > 0xffff_ffff_ffff_ffff,
                    ;
                    Err(Error::TooSmall)
                }
            },
        }
    } else {
        Ok(scale_down(radix, bits, (-delta) as u32))
    }
}

} // verus!
