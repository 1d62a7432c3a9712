//! Exponent changes in unbounded integers, and how they compose.

use crate::error::Error;
use crate::power::{bounded_pow, lemma_pow_grows};
use crate::radix::Radix;
use crate::shift::{lemma_trunc_div_shrinks, scale_down};
use crate::word::{lemma_wrap_mul, lift, trunc_div, trunc_rem, Word};
use vstd::arithmetic::power::pow;
use vstd::prelude::*;

verus! {

/// A mantissa moved by `delta` exponent steps in unbounded integers: times
/// `base^delta` for `delta >= 0`, else divided by `base^-delta`, truncating
/// toward zero.
pub open spec fn rescale(base: int, m: int, delta: int) -> int {
    if delta >= 0 {
        m * pow(base, delta as nat)
    } else {
        trunc_div(m, pow(base, (-delta) as nat))
    }
}

/// A number of at most 64 bits moved by `delta` exponent steps and wrapped
/// into the storage `w`: the low bits of the exact result.
pub fn wrapping_rescale(w: Word, radix: Radix, v: i128, delta: i64) -> (r: i128)
    requires
        -0x1_0000_0000_0000_0000 < v < 0x1_0000_0000_0000_0000,
        -0x1_0000_0000 < delta < 0x1_0000_0000,
    ensures
        r == w.wrap(rescale(radix.base(), v as int, delta as int)),
        w.holds(r as int),
{
    if delta >= 0 {
        let low = w.wrapping(v);
        let ratio = radix.wrapping_ratio(w, delta as u32);
        proof {
            let p = pow(radix.base(), delta as nat);
            lemma_wrap_mul(w, v as int, p);
            lemma_wrap_mul(w, w.wrap(v as int), p);
        }
        w.wrapping_mul(low, ratio)
    } else {
        w.wrapping(scale_down(radix, v, (-delta) as u32))
    }
}

/// A number of at most 64 bits moved by `delta` exponent steps, if the exact
/// result is a value of the storage `w`; else the side on which it leaves.
pub fn checked_rescale(w: Word, radix: Radix, v: i128, delta: i64) -> (r: Result<i128, Error>)
    requires
        -0x1_0000_0000_0000_0000 < v < 0x1_0000_0000_0000_0000,
        -0x1_0000_0000 < delta < 0x1_0000_0000,
    ensures
        lift(r) == w.check(rescale(radix.base(), v as int, delta as int)),
        r is Ok ==> w.holds(r->Ok_0 as int),
{
    if delta >= 0 {
        match bounded_pow(radix.base_value(), delta as u32, 0xffff_ffff_ffff_ffff) {
            Some(ratio) => w.checked_mul(v, ratio),
            None => {
                let ghost p = pow(radix.base(), delta as nat);
                if v == 0 {
                    assert(v * p == 0) by (nonlinear_arith)
                        requires
                            v == 0,
                    ;
                    Ok(0)
                } else if v > 0 {
                    assert(v * p > 0xffff_ffff_ffff_ffff) by (nonlinear_arith)
                        requires
                            v >= 1,
                            p > 0xffff_ffff_ffff_ffff,
                    ;
                    Err(Error::TooBig)
                } else {
                    assert(v * p < -0xffff_ffff_ffff_ffff) by (nonlinear_arith)
                        requires
                            v <= -1,
                            p > 0xffff_ffff_ffff_ffff,
                    ;
                    Err(Error::TooSmall)
                }
            },
        }
    } else {
        w.checked(scale_down(radix, v, (-delta) as u32))
    }
}

/// Truncating division commutes with negation.
pub proof fn lemma_trunc_div_neg(m: int, d: int)
    requires
        d >= 1,
    ensures
        trunc_div(-m, d) == -trunc_div(m, d),
{
    if m == 0 {
        assert(0int / d == 0) by (nonlinear_arith)
            requires
                d >= 1,
        ;
    }
}

/// A quotient and its remainder rebuild the dividend; the remainder is
/// smaller than the divisor and has the sign of the dividend.
pub proof fn lemma_trunc_div_rem(m: int, d: int)
    requires
        d >= 1,
    ensures
        m == trunc_div(m, d) * d + trunc_rem(m, d),
        -d < trunc_rem(m, d) < d,
        m >= 0 ==> trunc_rem(m, d) >= 0,
        m <= 0 ==> trunc_rem(m, d) <= 0,
{
    if m >= 0 {
        vstd::arithmetic::div_mod::lemma_fundamental_div_mod(m, d);
        vstd::arithmetic::div_mod::lemma_mod_bound(m, d);
        assert(d * (m / d) == (m / d) * d) by (nonlinear_arith);
    } else {
        vstd::arithmetic::div_mod::lemma_fundamental_div_mod(-m, d);
        vstd::arithmetic::div_mod::lemma_mod_bound(-m, d);
        assert((-((-m) / d)) * d == -(d * ((-m) / d))) by (nonlinear_arith);
    }
}

/// Dividing an exact multiple gives the factor back.
pub proof fn lemma_trunc_div_multiple(q: int, d: int)
    requires
        d >= 1,
    ensures
        trunc_div(q * d, d) == q,
{
    if q >= 0 {
        assert(q * d >= 0) by (nonlinear_arith)
            requires
                q >= 0,
                d >= 1,
        ;
        vstd::arithmetic::div_mod::lemma_div_by_multiple(q, d);
    } else {
        assert(q * d < 0 && -(q * d) == (-q) * d) by (nonlinear_arith)
            requires
                q < 0,
                d >= 1,
        ;
        vstd::arithmetic::div_mod::lemma_div_by_multiple(-q, d);
    }
}

/// A common factor of dividend and divisor cancels.
pub proof fn lemma_trunc_div_cancel(m: int, k: int, c: int)
    requires
        k >= 1,
        c >= 1,
    ensures
        trunc_div(m * c, k * c) == trunc_div(m, k),
{
    assert(k * c >= 1) by (nonlinear_arith)
        requires
            k >= 1,
            c >= 1,
    ;
    if m >= 0 {
        assert(m * c >= 0) by (nonlinear_arith)
            requires
                m >= 0,
                c >= 1,
        ;
        vstd::arithmetic::div_mod::lemma_div_multiples_vanish_quotient(c, m, k);
        assert(c * m == m * c && c * k == k * c) by (nonlinear_arith);
    } else {
        assert(m * c < 0 && -(m * c) == (-m) * c) by (nonlinear_arith)
            requires
                m < 0,
                c >= 1,
        ;
        vstd::arithmetic::div_mod::lemma_div_multiples_vanish_quotient(c, -m, k);
        assert(c * (-m) == (-m) * c && c * k == k * c) by (nonlinear_arith);
    }
}

/// Dividing twice is dividing by the product.
pub proof fn lemma_trunc_div_twice(m: int, a: int, b: int)
    requires
        a >= 1,
        b >= 1,
    ensures
        trunc_div(trunc_div(m, a), b) == trunc_div(m, a * b),
{
    assert(a * b >= 1) by (nonlinear_arith)
        requires
            a >= 1,
            b >= 1,
    ;
    lemma_trunc_div_shrinks(m, a);
    if m >= 0 {
        vstd::arithmetic::div_mod::lemma_div_denominator(m, a, b);
    } else {
        vstd::arithmetic::div_mod::lemma_div_denominator(-m, a, b);
        let q = (-m) / a;
        lemma_trunc_div_neg(q, b);
    }
}

/// Moving a mantissa in two steps is moving it once by the sum of the steps,
/// provided the first step loses nothing that the second would have kept: the
/// first step multiplies, or both divide, or the first divides exactly.
pub proof fn lemma_rescale_twice(base: int, m: int, d1: int, d2: int)
    requires
        base >= 1,
        d1 >= 0 || d2 <= 0 || trunc_rem(m, pow(base, (-d1) as nat)) == 0,
    ensures
        rescale(base, rescale(base, m, d1), d2) == rescale(base, m, d1 + d2),
{
    if d1 >= 0 {
        let p1 = pow(base, d1 as nat);
        lemma_pow_grows(base, 0, d1 as nat);
        if d2 >= 0 {
            let p2 = pow(base, d2 as nat);
            vstd::arithmetic::power::lemma_pow_adds(base, d1 as nat, d2 as nat);
            assert((m * p1) * p2 == m * (p1 * p2)) by (nonlinear_arith);
        } else {
            let p2 = pow(base, (-d2) as nat);
            lemma_pow_grows(base, 0, (-d2) as nat);
            if d1 + d2 >= 0 {
                let rest = pow(base, (d1 + d2) as nat);
                vstd::arithmetic::power::lemma_pow_adds(base, (d1 + d2) as nat, (-d2) as nat);
                assert(m * p1 == (m * rest) * p2) by (nonlinear_arith)
                    requires
                        p1 == rest * p2,
                ;
                lemma_trunc_div_multiple(m * rest, p2);
            } else {
                let rest = pow(base, (-(d1 + d2)) as nat);
                lemma_pow_grows(base, 0, (-(d1 + d2)) as nat);
                vstd::arithmetic::power::lemma_pow_adds(base, (-(d1 + d2)) as nat, d1 as nat);
                lemma_trunc_div_cancel(m, rest, p1);
            }
        }
    } else {
        let p1 = pow(base, (-d1) as nat);
        lemma_pow_grows(base, 0, (-d1) as nat);
        if d2 <= 0 {
            let p2 = pow(base, (-d2) as nat);
            lemma_pow_grows(base, 0, (-d2) as nat);
            vstd::arithmetic::power::lemma_pow_adds(base, (-d1) as nat, (-d2) as nat);
            lemma_trunc_div_twice(m, p1, p2);
            if d2 == 0 {
                vstd::arithmetic::power::lemma_pow0(base);
                assert(trunc_div(trunc_div(m, p1), 1) == trunc_div(m, p1));
                assert(trunc_div(m, p1) * 1 == trunc_div(m, p1));
            }
        } else {
            let p2 = pow(base, d2 as nat);
            lemma_pow_grows(base, 0, d2 as nat);
            let q = trunc_div(m, p1);
            lemma_trunc_div_rem(m, p1);
            assert(m == q * p1);
            if d1 + d2 >= 0 {
                let rest = pow(base, (d1 + d2) as nat);
                vstd::arithmetic::power::lemma_pow_adds(base, (-d1) as nat, (d1 + d2) as nat);
                assert(q * p2 == (q * p1) * rest) by (nonlinear_arith)
                    requires
                        p2 == p1 * rest,
                ;
            } else {
                let rest = pow(base, (-(d1 + d2)) as nat);
                lemma_pow_grows(base, 0, (-(d1 + d2)) as nat);
                vstd::arithmetic::power::lemma_pow_adds(base, d2 as nat, (-(d1 + d2)) as nat);
                assert(q * p1 == (q * p2) * rest) by (nonlinear_arith)
                    requires
                        p1 == p2 * rest,
                ;
                lemma_trunc_div_multiple(q * p2, rest);
            }
        }
    }
}

/// Moving a mantissa there and back: exact when the way there multiplies;
/// when it divides, the way back lands within one unit of the coarser scale
/// short of the start, on the side of zero.
pub proof fn lemma_rescale_back(base: int, m: int, delta: int)
    requires
        base >= 1,
    ensures
        delta >= 0 ==> rescale(base, rescale(base, m, delta), -delta) == m,
        delta < 0 ==> {
            let unit = pow(base, (-delta) as nat);
            let back = rescale(base, rescale(base, m, delta), -delta);
            &&& m - back == trunc_rem(m, unit)
            &&& -unit < m - back < unit
            &&& m >= 0 ==> 0 <= back <= m
            &&& m <= 0 ==> m <= back <= 0
        },
{
    if delta >= 0 {
        lemma_pow_grows(base, 0, delta as nat);
        lemma_trunc_div_multiple(m, pow(base, delta as nat));
        if delta == 0 {
            vstd::arithmetic::power::lemma_pow0(base);
            assert(m * 1 == m);
        }
    } else {
        let unit = pow(base, (-delta) as nat);
        lemma_pow_grows(base, 0, (-delta) as nat);
        lemma_trunc_div_rem(m, unit);
        lemma_trunc_div_shrinks(m, unit);
        let q = trunc_div(m, unit);
        assert(m >= 0 ==> q * unit >= 0) by (nonlinear_arith)
            requires
                m >= 0 ==> q >= 0,
                unit >= 1,
        ;
        assert(m <= 0 ==> q * unit <= 0) by (nonlinear_arith)
            requires
                m <= 0 ==> q <= 0,
                unit >= 1,
        ;
    }
}

} // verus!
