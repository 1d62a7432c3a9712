//! Exponential moving average filter.
//!
//! The filter needs no delay line, only the result of the previous step:
//! `y = alpha * x + (1 - alpha) * y[-1]`.

use crate::algebra::lemma_times_exact;
use crate::exact::{lemma_convert_held, lemma_convert_zero, lemma_word_grows};
use crate::fixed::Fix;
use crate::power::lemma_pow_grows;
use crate::rescale::lemma_trunc_div_multiple;
use crate::scale::Scale;
use crate::traits::Transducer;
use crate::word::lemma_wrap_fixes_held;
use vstd::arithmetic::power::pow;
use vstd::prelude::*;

verus! {

/// EMA filter parameters: the weight of the new sample and the weight of the
/// previous output.
#[derive(Debug, Clone, Copy)]
pub struct Param {
    /// The value of alpha parameter.
    pub alpha: Fix,
    /// The value of 1-alpha parameter.
    pub one_sub_alpha: Fix,
}

/// The quotient of two values, re-expressed at the scale `to`.
pub open spec fn ratio_at(to: Scale, num: Fix, den: Fix) -> Fix {
    num.over(den).converted(to)
}

/// Whether `ratio_at` is defined: the scales combine and the division is.
pub open spec fn ratio_defined(to: Scale, num: Fix, den: Fix) -> bool {
    &&& to.wf()
    &&& num.divides_by(den)
    &&& to.radix == num.scale.radix
}

impl Param {
    /// Both weights are well formed and share one scale.
    pub open spec fn wf(self) -> bool {
        self.alpha.wf() && self.one_sub_alpha.wf() && self.alpha.scale == self.one_sub_alpha.scale
    }

    /// What `1 - alpha` is at the scale of `alpha`: the difference is taken
    /// with a guard digit and converted back.
    pub open spec fn complement(alpha: Fix) -> Fix {
        Fix::of_integer(alpha.scale, 1).minus(alpha).converted(alpha.scale)
    }

    /// The parameters for a weight `alpha`.
    pub open spec fn of_alpha(alpha: Fix) -> Param {
        Param { alpha, one_sub_alpha: Param::complement(alpha) }
    }

    /// Whether a weight can be made into parameters: its scale has room for
    /// the guard digit of the subtraction.
    pub open spec fn alpha_fits(alpha: Fix) -> bool {
        alpha.wf() && alpha.scale.sum_of(alpha.scale) is Some
    }

    /// The numerator and denominator of `2 / (n + 1)`.
    pub open spec fn steps_parts(scale: Scale, n: Fix) -> (Fix, Fix) {
        (
            Fix::of_integer(n.scale.product_of(scale)->0, 2),
            n.plus(Fix::of_integer(n.scale, 1)),
        )
    }

    /// Whether `from_steps` is defined for a step count `n` and weights at
    /// `scale`.
    pub open spec fn steps_fit(scale: Scale, n: Fix) -> bool {
        let (num, den) = Param::steps_parts(scale, n);
        &&& n.wf()
        &&& scale.wf()
        &&& n.scale.product_of(scale) is Some
        &&& n.scale.sum_of(n.scale) is Some
        &&& scale.sum_of(scale) is Some
        &&& ratio_defined(scale, num, den)
    }

    /// The numerator and denominator of `2 * period / (time + period)`: the
    /// numerator is widened by the scale of the weights so that the quotient
    /// keeps their precision.
    pub open spec fn time_parts(scale: Scale, time: Fix, period: Fix) -> (Fix, Fix) {
        let sum = time.scale.sum_of(period.scale)->0;
        (period.plus(period).converted(sum.product_of(scale)->0), time.plus(period))
    }

    /// Whether `from_time` is defined.
    pub open spec fn time_fits(scale: Scale, time: Fix, period: Fix) -> bool {
        let (num, den) = Param::time_parts(scale, time, period);
        &&& time.wf()
        &&& period.wf()
        &&& period.scale.sum_of(period.scale) is Some
        &&& time.scale.sum_of(period.scale) is Some
        &&& time.scale.sum_of(period.scale)->0.product_of(scale) is Some
        &&& scale.sum_of(scale) is Some
        &&& ratio_defined(scale, num, den)
    }

    /// The numerator and denominator of `period / (time + period)`.
    pub open spec fn pt1_parts(scale: Scale, time: Fix, period: Fix) -> (Fix, Fix) {
        let sum = time.scale.sum_of(period.scale)->0;
        (period.converted(sum.product_of(scale)->0), time.plus(period))
    }

    /// Whether `from_pt1` is defined.
    pub open spec fn pt1_fits(scale: Scale, time: Fix, period: Fix) -> bool {
        let (num, den) = Param::pt1_parts(scale, time, period);
        &&& time.wf()
        &&& period.wf()
        &&& time.scale == period.scale
        &&& time.scale.sum_of(period.scale) is Some
        &&& time.scale.sum_of(period.scale)->0.product_of(scale) is Some
        &&& scale.sum_of(scale) is Some
        &&& ratio_defined(scale, num, den)
    }

    /// Init EMA parameters using alpha factor.
    ///
    /// The alpha factor is the weight of the actual value in the result: with
    /// an alpha of 1 no smoothing is applied, and the less alpha the more
    /// smoothing.
    pub fn from_alpha(alpha: Fix) -> (param: Param)
        requires
            Param::alpha_fits(alpha),
        ensures
            param == Param::of_alpha(alpha),
            param.wf(),
    {
        let one = Fix::cast(alpha.scale, 1u8);
        Param { alpha, one_sub_alpha: (one - alpha).convert(alpha.scale) }
    }

    /// Init EMA parameters using N factor, the number of steps for
    /// smoothing: `alpha = 2 / (n + 1)`, with weights at `scale`.
    ///
    /// With an N of 1 no smoothing is applied, and the more N the more
    /// smoothing.
    pub fn from_steps(scale: Scale, n: Fix) -> (param: Param)
        requires
            Param::steps_fit(scale, n),
        ensures
            ({
                let (num, den) = Param::steps_parts(scale, n);
                param == Param::of_alpha(ratio_at(scale, num, den))
            }),
            param.wf(),
            param.alpha.scale == scale,
    {
        let two = Fix::cast(n.scale.product(&scale).unwrap(), 2u8);
        let alpha = (two / (n + Fix::cast(n.scale, 1u8))).convert(scale);
        Param::from_alpha(alpha)
    }

    /// Init EMA parameters using time factor: `alpha = 2 * period / (time +
    /// period)`, where `time` is the smooth time and `period` the sampling
    /// time, with weights at `scale`.
    ///
    /// A time equal to the period gives an alpha of 1.
    pub fn from_time(scale: Scale, time: Fix, period: Fix) -> (param: Param)
        requires
            Param::time_fits(scale, time, period),
        ensures
            ({
                let (num, den) = Param::time_parts(scale, time, period);
                param == Param::of_alpha(ratio_at(scale, num, den))
            }),
            param.wf(),
            param.alpha.scale == scale,
    {
        let sum = time.scale.sum(&period.scale).unwrap();
        let wide = sum.product(&scale).unwrap();
        let alpha = ((period + period).convert(wide) / (time + period)).convert(scale);
        Param::from_alpha(alpha)
    }

    /// Init EMA parameters as 1st-order transmission behavior: `alpha =
    /// period / (time + period)`, with weights at `scale`.
    pub fn from_pt1(scale: Scale, time: Fix, period: Fix) -> (param: Param)
        requires
            Param::pt1_fits(scale, time, period),
        ensures
            ({
                let (num, den) = Param::pt1_parts(scale, time, period);
                param == Param::of_alpha(ratio_at(scale, num, den))
            }),
            param.wf(),
            param.alpha.scale == scale,
    {
        let sum = time.scale.sum(&period.scale).unwrap();
        let wide = sum.product(&scale).unwrap();
        let alpha = (period.convert(wide) / (time + period)).convert(scale);
        Param::from_alpha(alpha)
    }

    /// Adjust parameters gain: both weights are multiplied by `gain`.
    pub fn with_gain(self, gain: Fix) -> (param: Param)
        requires
            self.wf(),
            gain.wf(),
            self.alpha.scale.product_of(gain.scale) is Some,
        ensures
            param.alpha == self.alpha.times(gain),
            param.one_sub_alpha == self.one_sub_alpha.times(gain),
            param.wf(),
    {
        Param { alpha: self.alpha * gain, one_sub_alpha: self.one_sub_alpha * gain }
    }

    /// Change parameters scale: both weights are converted to `scale`.
    pub fn to(self, scale: Scale) -> (param: Param)
        requires
            self.wf(),
            scale.wf(),
            self.alpha.scale.radix == scale.radix,
        ensures
            param.alpha == self.alpha.converted(scale),
            param.one_sub_alpha == self.one_sub_alpha.converted(scale),
            param.wf(),
    {
        Param { alpha: self.alpha.convert(scale), one_sub_alpha: self.one_sub_alpha.convert(scale) }
    }
}

/// EMA filter state.
#[derive(Debug, Clone, Copy)]
pub struct State {
    /// The last output value.
    pub last_value: Fix,
}

impl State {
    /// Initialize filter state with the initial value; its scale is the
    /// scale of every output.
    pub fn new(value: Fix) -> (state: State)
        ensures
            state.last_value == value,
    {
        State { last_value: value }
    }
}

/// The output of a step: `alpha * value + (1 - alpha) * last`, each product
/// and the sum converted to the scale of the output.
pub open spec fn smoothed(param: Param, last: Fix, value: Fix) -> Fix {
    let out = last.scale;
    let fresh = param.alpha.times(value).converted(out);
    let kept = param.one_sub_alpha.times(last).converted(out);
    fresh.plus(kept).converted(out)
}

/// With an alpha of one nothing is smoothed: the other weight is zero, and a
/// step on a sample at the scale of the output gives the sample back,
/// whatever the previous output, as long as the sample times one stays within
/// the storage of the product.
pub proof fn lemma_alpha_one_keeps_input(alpha: Fix, last: Fix, value: Fix)
    requires
        Param::alpha_fits(alpha),
        alpha.scale.exp <= 0,
        alpha.bits == pow(alpha.scale.radix.base(), (-alpha.scale.exp) as nat),
        last.wf(),
        value.wf(),
        value.scale == last.scale,
        alpha.scale.product_of(value.scale) is Some,
        last.scale.sum_of(last.scale) is Some,
        alpha.scale.product_of(value.scale)->0.word().holds(alpha.bits * value.bits),
    ensures
        alpha == Fix::of_integer(alpha.scale, 1),
        Param::complement(alpha).bits == 0,
        smoothed(Param::of_alpha(alpha), last, value) == value,
{
    let a = alpha.scale;
    let o = last.scale;
    let base = a.radix.base();
    let one = pow(base, (-a.exp) as nat);
    let v = value.bits as int;
    vstd::arithmetic::power::lemma_pow0(base);
    lemma_pow_grows(base, 0, (-a.exp) as nat);
    // alpha is the number one
    lemma_wrap_fixes_held(a.word(), 1);
    assert(1 * one == one);
    lemma_wrap_fixes_held(a.word(), one);
    assert(alpha == Fix::of_integer(a, 1));
    // one minus one is zero
    let guard = a.sum_of(a)->0;
    lemma_wrap_fixes_held(guard.word(), 0);
    let rest = alpha.minus(alpha);
    assert(rest.bits == 0);
    assert(guard.word().holds(0));
    lemma_convert_zero(rest, a);
    let zero = Param::complement(alpha);
    assert(zero.bits == 0 && zero.scale == a);
    // the fresh part is the sample
    let product = a.product_of(o)->0;
    lemma_times_exact(alpha, value);
    let scaled = alpha.times(value);
    assert(one * v == v * one) by (nonlinear_arith);
    lemma_trunc_div_multiple(v, one);
    if a.exp == 0 {
        assert(v * 1 == v);
    }
    lemma_convert_held(scaled, o);
    let fresh = scaled.converted(o);
    assert(fresh == value);
    // the kept part is zero
    assert(product.word().holds(0));
    lemma_wrap_fixes_held(product.word(), 0);
    assert(0 * product.word().wrap(last.bits as int) == 0);
    let nothing = zero.times(last);
    assert(nothing.bits == 0);
    lemma_convert_zero(nothing, o);
    let kept = nothing.converted(o);
    // the sum is the sample
    let sum = o.sum_of(o)->0;
    lemma_word_grows(o.radix, o.digits as nat, sum.digits as nat);
    assert(v * 1 == v);
    lemma_convert_held(value, sum);
    lemma_convert_zero(kept, sum);
    lemma_wrap_fixes_held(sum.word(), v);
    let total = fresh.plus(kept);
    assert(total.bits == v);
    lemma_convert_held(total, o);
}

/// EMA filter.
#[derive(Debug)]
pub struct Filter;

impl Transducer for Filter {
    type Input = Fix;

    type Output = Fix;

    type Param = Param;

    type State = State;

    open spec fn accepts(param: &Param, state: &State, value: Fix) -> bool {
        &&& param.wf()
        &&& state.last_value.wf()
        &&& value.wf()
        &&& param.alpha.scale.product_of(value.scale) is Some
        &&& param.alpha.scale.product_of(state.last_value.scale) is Some
        &&& state.last_value.scale.sum_of(state.last_value.scale) is Some
    }

    open spec fn transfers(param: &Param, pre: &State, value: Fix, post: &State, out: Fix) -> bool {
        &&& out == smoothed(*param, pre.last_value, value)
        &&& post.last_value == out
        &&& out.wf()
        &&& out.scale == pre.last_value.scale
    }

    fn apply(param: &Param, state: &mut State, value: Fix) -> (out: Fix) {
        let scale = state.last_value.scale;
        let fresh = (param.alpha * value).convert(scale);
        let kept = (param.one_sub_alpha * state.last_value).convert(scale);
        state.last_value = (fresh + kept).convert(scale);
        state.last_value
    }
}

} // verus!
