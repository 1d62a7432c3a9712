//! What the conversions between scales guarantee.

use crate::error::Error;
use crate::fixed::Fix;
use crate::power::lemma_pow_grows;
use crate::radix::{Radix, MIN_WORD_BITS};
use crate::rescale::{lemma_rescale_back, lemma_rescale_twice, rescale};
use crate::scale::Scale;
use crate::shift::lemma_trunc_div_shrinks;
use crate::word::{lemma_wrap_fixes_held, trunc_rem, Word};
use vstd::arithmetic::power::pow;
use vstd::prelude::*;

verus! {

/// More digits never select a narrower storage.
pub proof fn lemma_word_grows(r: Radix, fewer: nat, more: nat)
    requires
        fewer <= more,
    ensures
        r.word(more).min_value() <= r.word(fewer).min_value(),
        r.word(fewer).max_value() <= r.word(more).max_value(),
        r.word(fewer).bits() <= r.word(more).bits(),
        r.word(fewer).signed() == r.signed(),
{
}

/// Converting a value to its own scale changes nothing.
pub proof fn lemma_convert_same(x: Fix)
    requires
        x.wf(),
    ensures
        x.convert_bits(x.scale) == x.bits,
        x.converted(x.scale) == x,
        x.try_convert_bits(x.scale) == Ok::<int, Error>(x.bits as int),
{
    let base = x.scale.radix.base();
    vstd::arithmetic::power::lemma_pow0(base);
    assert(x.bits * 1 == x.bits);
    lemma_wrap_fixes_held(x.scale.word(), x.bits as int);
}

/// A range-checked conversion succeeds exactly where the rescaled mantissa,
/// computed in unbounded integers, is a value of the destination's storage,
/// and it fails on the side on which that mantissa leaves the storage.
pub proof fn lemma_try_convert_exact(x: Fix, to: Scale)
    requires
        x.wf(),
        to.wf(),
        x.fits_radix(to),
    ensures
        x.try_convert_bits(to) == to.word().check(
            rescale(x.scale.radix.base(), x.bits as int, x.scale.exp - to.exp),
        ),
{
    let base = x.scale.radix.base();
    let delta = x.scale.exp - to.exp;
    let m = x.bits as int;
    if x.scale.digits < to.digits {
        lemma_word_grows(to.radix, x.scale.digits as nat, to.digits as nat);
        if delta < 0 {
            lemma_pow_grows(base, 0, (-delta) as nat);
            lemma_trunc_div_shrinks(m, pow(base, (-delta) as nat));
        }
    } else {
        lemma_word_grows(to.radix, to.digits as nat, x.scale.digits as nat);
    }
}

/// The wrapping conversion keeps the low bits of the rescaled mantissa,
/// computed in unbounded integers: whichever of widening and moving the
/// exponent comes first, nothing but those bits is lost.
pub proof fn lemma_convert_wraps(x: Fix, to: Scale)
    requires
        x.wf(),
        to.wf(),
        x.fits_radix(to),
    ensures
        x.convert_bits(to) == to.word().wrap(
            rescale(x.scale.radix.base(), x.bits as int, x.scale.exp - to.exp),
        ),
{
    let base = x.scale.radix.base();
    let delta = x.scale.exp - to.exp;
    let m = x.bits as int;
    if x.scale.digits < to.digits {
        lemma_word_grows(to.radix, x.scale.digits as nat, to.digits as nat);
        lemma_wrap_fixes_held(to.word(), m);
        if delta < 0 {
            lemma_pow_grows(base, 0, (-delta) as nat);
            lemma_trunc_div_shrinks(m, pow(base, (-delta) as nat));
            lemma_wrap_fixes_held(to.word(), rescale(base, m, delta));
        }
    } else {
        lemma_word_grows(to.radix, to.digits as nat, x.scale.digits as nat);
        if delta >= 0 {
            crate::word::lemma_wrap_narrows(
                to.word(),
                x.scale.word(),
                m * pow(base, delta as nat),
            );
        }
    }
}

/// Where the range-checked conversion succeeds, the wrapping conversion gives
/// the same mantissa.
pub proof fn lemma_convert_agrees(x: Fix, to: Scale)
    requires
        x.wf(),
        to.wf(),
        x.fits_radix(to),
        x.try_convert_bits(to) is Ok,
    ensures
        x.try_convert_bits(to) == Ok::<int, Error>(x.convert_bits(to)),
        x.convert_bits(to) == rescale(x.scale.radix.base(), x.bits as int, x.scale.exp - to.exp),
{
    let base = x.scale.radix.base();
    let delta = x.scale.exp - to.exp;
    let m = x.bits as int;
    let v = rescale(base, m, delta);
    lemma_try_convert_exact(x, to);
    lemma_wrap_fixes_held(to.word(), v);
    if x.scale.digits < to.digits {
        lemma_word_grows(to.radix, x.scale.digits as nat, to.digits as nat);
        lemma_wrap_fixes_held(to.word(), m);
    } else {
        lemma_word_grows(to.radix, to.digits as nat, x.scale.digits as nat);
        lemma_wrap_fixes_held(x.scale.word(), v);
    }
}

/// Where the rescaled mantissa is a value of the destination's storage, the
/// wrapping conversion is exact.
pub proof fn lemma_convert_held(x: Fix, to: Scale)
    requires
        x.wf(),
        to.wf(),
        x.fits_radix(to),
        to.word().holds(rescale(x.scale.radix.base(), x.bits as int, x.scale.exp - to.exp)),
    ensures
        x.convert_bits(to) == rescale(x.scale.radix.base(), x.bits as int, x.scale.exp - to.exp),
        x.converted(to).wf(),
{
    lemma_try_convert_exact(x, to);
    lemma_convert_agrees(x, to);
}

/// Zero converts to zero at every scale.
pub proof fn lemma_convert_zero(x: Fix, to: Scale)
    requires
        x.wf(),
        to.wf(),
        x.fits_radix(to),
        x.bits == 0,
    ensures
        x.convert_bits(to) == 0,
        x.converted(to).wf(),
{
    let base = x.scale.radix.base();
    let delta = x.scale.exp - to.exp;
    if delta >= 0 {
        assert(0 * pow(base, delta as nat) == 0);
    } else {
        lemma_pow_grows(base, 0, (-delta) as nat);
        lemma_trunc_div_shrinks(0, pow(base, (-delta) as nat));
    }
    lemma_convert_held(x, to);
}

/// Converting through an intermediate scale gives what the direct conversion
/// gives, provided the value reaches the intermediate scale in range and
/// loses nothing there that the destination would have kept: the
/// intermediate exponent is not above the source's, or not above the
/// destination's, or the mantissa is a multiple of the radix power that the
/// intermediate scale drops.
///
/// A detour through a coarser scale that truncates fails this: 15 at
/// exponent -3 sent through exponent 3 comes back as 0.
pub proof fn lemma_convert_through(x: Fix, mid: Scale, to: Scale)
    requires
        x.wf(),
        mid.wf(),
        to.wf(),
        x.fits_radix(mid),
        x.fits_radix(to),
        x.try_convert_bits(mid) is Ok,
        mid.exp <= x.scale.exp || mid.exp <= to.exp || trunc_rem(
            x.bits as int,
            pow(x.scale.radix.base(), (mid.exp - x.scale.exp) as nat),
        ) == 0,
    ensures
        ({
            let y = Fix { bits: x.convert_bits(mid) as i128, scale: mid };
            &&& y.wf()
            &&& y.try_convert_bits(to) == x.try_convert_bits(to)
            &&& x.try_convert_bits(to) is Ok ==> y.convert_bits(to) == x.convert_bits(to)
        }),
{
    let base = x.scale.radix.base();
    let d1 = x.scale.exp - mid.exp;
    let d2 = mid.exp - to.exp;
    lemma_try_convert_exact(x, mid);
    lemma_convert_agrees(x, mid);
    let y = Fix { bits: x.convert_bits(mid) as i128, scale: mid };
    assert(y.bits == rescale(base, x.bits as int, d1));
    lemma_try_convert_exact(y, to);
    lemma_try_convert_exact(x, to);
    lemma_rescale_twice(base, x.bits as int, d1, d2);
    if x.try_convert_bits(to) is Ok {
        lemma_convert_agrees(x, to);
        lemma_convert_agrees(y, to);
    }
}

/// A native integer whose mantissa at a scale is a value of the storage
/// converts back to itself where the exponent is zero or less, and otherwise
/// to the nearest multiple of the scale's unit on the side of zero: off by
/// less than one unit in the last digit. The wrapping and the range-checked
/// conversions agree on the way there and on the way back.
pub proof fn lemma_round_trip(scale: Scale, from: Word, v: int)
    requires
        scale.wf(),
        from.holds(v),
        Fix::try_cast_bits(scale, v) is Ok,
    ensures
        ({
            let x = Fix { bits: Fix::try_cast_bits(scale, v)->Ok_0 as i128, scale };
            let unit = pow(scale.radix.base(), scale.exp as nat);
            &&& x.wf()
            &&& x.bits == Fix::cast_bits(scale, v)
            &&& x.try_native(from) == Ok::<int, Error>(x.integer())
            &&& x.native(from) == x.integer()
            &&& scale.exp <= 0 ==> x.integer() == v
            &&& scale.exp > 0 ==> -unit < v - x.integer() < unit
            &&& v >= 0 ==> 0 <= x.integer() <= v
            &&& v <= 0 ==> v <= x.integer() <= 0
        }),
{
    let w = scale.word();
    let base = scale.radix.base();
    let delta = 0 - scale.exp;
    let m = rescale(base, v, delta);
    lemma_wrap_fixes_held(w, m);
    lemma_rescale_back(base, v, delta);
    let back = rescale(base, m, -delta);
    lemma_wrap_fixes_held(from, back);
}

} // verus!
