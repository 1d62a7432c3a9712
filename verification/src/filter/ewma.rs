//! Exponentially weighted moving average filter.
//!
//! The filter works within the scale of its samples: input, state and output
//! share one scale, and sums are taken at the scale of their left operand.

use crate::fixed::Fix;
use crate::scale::Scale;
use crate::traits::Transducer;
use vstd::prelude::*;

verus! {

/// EWMA filter parameters.
#[derive(Debug, Clone, Copy)]
pub struct Param {
    /// The value of alpha parameter.
    pub alpha: Fix,
    /// The value of 1-alpha parameter.
    pub one_sub_alpha: Fix,
}

impl Param {
    /// Both weights are well formed and share one scale.
    pub open spec fn wf(self) -> bool {
        self.alpha.wf() && self.one_sub_alpha.wf() && self.alpha.scale == self.one_sub_alpha.scale
    }

    /// The parameters for a weight `alpha`: `1 - alpha` is taken within the
    /// scale of `alpha`.
    pub open spec fn of_alpha(alpha: Fix) -> Param {
        Param { alpha, one_sub_alpha: Fix::of_integer(alpha.scale, 1).decreased(alpha) }
    }

    /// Numerator and denominator of `2 / (n + 1)` for weights at `scale`.
    pub open spec fn n_parts(scale: Scale, n: Fix) -> (Fix, Fix) {
        (
            Fix::of_integer(n.scale.product_of(scale)->0, 2),
            n.increased(Fix::of_integer(n.scale, 1)),
        )
    }

    /// Whether `from_n` is defined.
    pub open spec fn n_fits(scale: Scale, n: Fix) -> bool {
        let (num, den) = Param::n_parts(scale, n);
        &&& n.wf()
        &&& scale.wf()
        &&& n.scale.product_of(scale) is Some
        &&& num.divides_by(den)
    }

    /// Numerator and denominator of `2 * period / (time + period)`.
    pub open spec fn time_parts(time: Fix, period: Fix) -> (Fix, Fix) {
        (period.increased(period), time.increased(period))
    }

    /// Whether `from_time` is defined.
    pub open spec fn time_fits(time: Fix, period: Fix) -> bool {
        let (num, den) = Param::time_parts(time, period);
        &&& time.wf()
        &&& period.wf()
        &&& time.scale.radix == period.scale.radix
        &&& num.divides_by(den)
    }

    /// Init EWMA parameters using alpha factor.
    ///
    /// The alpha factor is the weight of the actual value in the result: with
    /// an alpha of 1 no smoothing is applied, and the less alpha the more
    /// smoothing.
    pub fn from_alpha(alpha: Fix) -> (param: Param)
        requires
            alpha.wf(),
        ensures
            param == Param::of_alpha(alpha),
            param.wf(),
    {
        let mut rest = Fix::cast(alpha.scale, 1u8);
        rest.sub_assign(alpha);
        Param { alpha, one_sub_alpha: rest }
    }

    /// Init EWMA parameters using N factor, the number of steps for
    /// smoothing: `alpha = 2 / (n + 1)`, with weights at `scale`.
    pub fn from_n(scale: Scale, n: Fix) -> (param: Param)
        requires
            Param::n_fits(scale, n),
        ensures
            ({
                let (num, den) = Param::n_parts(scale, n);
                param == Param::of_alpha(num.over(den).converted(scale))
            }),
            param.wf(),
            param.alpha.scale == scale,
    {
        let two = Fix::cast(n.scale.product(&scale).unwrap(), 2u8);
        let mut den = n;
        den.add_assign(Fix::cast(n.scale, 1u8));
        Param::from_alpha((two / den).convert(scale))
    }

    /// Init EWMA parameters using time factor: `alpha = 2 * period / (time +
    /// period)`, where `time` is the smooth time and `period` the sampling
    /// time. The weights have the scale of the quotient.
    pub fn from_time(time: Fix, period: Fix) -> (param: Param)
        requires
            Param::time_fits(time, period),
        ensures
            ({
                let (num, den) = Param::time_parts(time, period);
                param == Param::of_alpha(num.over(den))
            }),
            param.wf(),
    {
        let mut num = period;
        num.add_assign(period);
        let mut den = time;
        den.add_assign(period);
        Param::from_alpha(num / den)
    }
}

/// EWMA filter state.
#[derive(Debug, Clone, Copy)]
pub struct State {
    /// The last output value.
    pub last_value: Fix,
}

impl State {
    /// Initialize filter state with the initial value.
    pub fn new(value: Fix) -> (state: State)
        ensures
            state.last_value == value,
    {
        State { last_value: value }
    }
}

/// The output of a step: `alpha * value + (1 - alpha) * last`, each product
/// converted to the scale of the samples and the sum taken there.
pub open spec fn averaged(param: Param, last: Fix, value: Fix) -> Fix {
    let fresh = param.alpha.times(value).converted(last.scale);
    let kept = param.one_sub_alpha.times(last).converted(last.scale);
    fresh.increased(kept)
}

/// EWMA filter.
#[derive(Debug)]
pub struct Filter;

impl Transducer for Filter {
    type Input = Fix;

    type Output = Fix;

    type Param = Param;

    type State = State;

    open spec fn accepts(param: &Param, state: &State, value: Fix) -> bool {
        &&& param.wf()
        &&& state.last_value.wf()
        &&& value.wf()
        &&& value.scale == state.last_value.scale
        &&& param.alpha.scale.product_of(value.scale) is Some
    }

    open spec fn transfers(param: &Param, pre: &State, value: Fix, post: &State, out: Fix) -> bool {
        &&& out == averaged(*param, pre.last_value, value)
        &&& post.last_value == out
        &&& out.wf()
        &&& out.scale == pre.last_value.scale
    }

    fn apply(param: &Param, state: &mut State, value: Fix) -> (out: Fix) {
        let scale = state.last_value.scale;
        let mut sum = (param.alpha * value).convert(scale);
        sum.add_assign((param.one_sub_alpha * state.last_value).convert(scale));
        state.last_value = sum;
        state.last_value
    }
}

} // verus!
