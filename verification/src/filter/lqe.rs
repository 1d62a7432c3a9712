//! Linear quadratic estimation (Kalman) filter for a scalar state.
//!
//! A step predicts state and covariance and then corrects both with the gain:
//!
//! - `x0 = f * x`
//! - `p0 = f^2 * p + q`
//! - `k = h * p0 / (h^2 * p0 + r)`
//! - `p = (1 - k * h) * p0`
//! - `x = x0 + k * (value - h * x0)`
//!
//! where `x` and `p` are the estimate and its covariance and `value` is the
//! measurement.

use crate::fixed::Fix;
use crate::scale::Scale;
use crate::traits::Transducer;
use vstd::prelude::*;

verus! {

/// LQE filter parameters.
#[derive(Debug, Clone, Copy)]
pub struct Param {
    /// Factor of actual value to previous actual value.
    pub f: Fix,
    /// Factor of measured value to actual value.
    pub h: Fix,
    /// Measurement noise.
    pub q: Fix,
    /// Environment noise.
    pub r: Fix,
    /// Square f.
    pub f2: Fix,
    /// Square h.
    pub h2: Fix,
    /// Scale of the gain.
    pub gain: Scale,
}

/// The scales of the parameters: of the factors, of the noises, of the
/// squared factors and of the gain.
#[derive(Debug, Clone, Copy)]
pub struct Scales {
    /// Scale of the factors.
    pub factor: Scale,
    /// Scale of the noises.
    pub noise: Scale,
    /// Scale of the squared factors.
    pub square: Scale,
    /// Scale of the gain.
    pub gain: Scale,
}

impl Scales {
    /// All four scales are well formed and share one radix, and the square
    /// of a factor has a scale.
    pub open spec fn wf(self) -> bool {
        &&& self.factor.wf()
        &&& self.noise.wf()
        &&& self.square.wf()
        &&& self.gain.wf()
        &&& self.noise.radix == self.factor.radix
        &&& self.square.radix == self.factor.radix
        &&& self.gain.radix == self.factor.radix
        &&& self.factor.product_of(self.factor) is Some
    }
}

impl Param {
    /// Every parameter is well formed; the factors share a scale, the noises
    /// do and the squares do; all scales share one radix.
    pub open spec fn wf(self) -> bool {
        &&& self.f.wf()
        &&& self.h.wf()
        &&& self.q.wf()
        &&& self.r.wf()
        &&& self.f2.wf()
        &&& self.h2.wf()
        &&& self.gain.wf()
        &&& self.h.scale == self.f.scale
        &&& self.r.scale == self.q.scale
        &&& self.h2.scale == self.f2.scale
        &&& self.q.scale.radix == self.f.scale.radix
        &&& self.f2.scale.radix == self.f.scale.radix
        &&& self.gain.radix == self.f.scale.radix
    }

    /// The parameters for the given factors and noises at the given scales:
    /// each is converted to its scale and the squares are computed once.
    pub open spec fn of(scales: Scales, f: Fix, h: Fix, q: Fix, r: Fix) -> Param {
        let f = f.converted(scales.factor);
        let h = h.converted(scales.factor);
        Param {
            f,
            h,
            q: q.converted(scales.noise),
            r: r.converted(scales.noise),
            f2: f.times(f).converted(scales.square),
            h2: h.times(h).converted(scales.square),
            gain: scales.gain,
        }
    }

    /// Init LQE parameters.
    pub fn new(scales: Scales, f: Fix, h: Fix, q: Fix, r: Fix) -> (param: Param)
        requires
            scales.wf(),
            f.wf(),
            h.wf(),
            q.wf(),
            r.wf(),
            f.scale.radix == scales.factor.radix,
            h.scale.radix == scales.factor.radix,
            q.scale.radix == scales.factor.radix,
            r.scale.radix == scales.factor.radix,
        ensures
            param == Param::of(scales, f, h, q, r),
            param.wf(),
    {
        let f = f.convert(scales.factor);
        let h = h.convert(scales.factor);
        Param {
            f,
            h,
            q: q.convert(scales.noise),
            r: r.convert(scales.noise),
            f2: (f * f).convert(scales.square),
            h2: (h * h).convert(scales.square),
            gain: scales.gain,
        }
    }
}

/// LQE filter state.
#[derive(Debug, Clone, Copy)]
pub struct State {
    /// State value.
    pub x: Fix,
    /// Covariance.
    pub p: Fix,
}

impl State {
    /// Both parts are well formed and share one radix.
    pub open spec fn wf(self) -> bool {
        self.x.wf() && self.p.wf() && self.x.scale.radix == self.p.scale.radix
    }

    /// The state with the given estimate and covariance.
    pub fn new(x: Fix, p: Fix) -> (state: State)
        ensures
            state.x == x,
            state.p == p,
    {
        State { x, p }
    }
}

/// The predicted state: `f * x` at the scale of the state.
pub open spec fn predicted_state(param: Param, x: Fix) -> Fix {
    param.f.times(x).converted(x.scale)
}

/// The predicted covariance: `f^2 * p + q` at the scale of the covariance.
pub open spec fn predicted_spread(param: Param, p: Fix) -> Fix {
    param.f2.times(p).converted(p.scale).plus(param.q).converted(p.scale)
}

/// The denominator of the gain: `h^2 * p0 + r`.
pub open spec fn gain_divisor(param: Param, p0: Fix) -> Fix {
    param.h2.times(p0).converted(param.q.scale).plus(param.r)
}

/// The gain: `h * p0 / (h^2 * p0 + r)` at the scale of the gain.
pub open spec fn gain_of(param: Param, p0: Fix) -> Fix {
    param.h.times(p0).over(gain_divisor(param, p0)).converted(param.gain)
}

/// What is left of one after the gain: `1 - k * h` with a guard digit.
pub open spec fn gain_rest(param: Param, k: Fix) -> Fix {
    Fix::of_integer(param.f.scale, 1).minus(k.times(param.h).converted(param.f.scale))
}

/// The corrected covariance: `(1 - k * h) * p0` at the scale of the
/// covariance.
pub open spec fn corrected_spread(param: Param, k: Fix, p0: Fix) -> Fix {
    gain_rest(param, k).times(p0).converted(p0.scale)
}

/// The deviation of the measurement from the prediction: `value - h * x0`,
/// at the scale of the measurement with a guard digit.
pub open spec fn deviation(param: Param, value: Fix, x0: Fix) -> Fix {
    value.minus(param.h.times(x0).converted(value.scale))
}

/// The corrected state: `x0 + k * (value - h * x0)` at the scale of the
/// state.
pub open spec fn corrected_state(param: Param, k: Fix, value: Fix, x0: Fix) -> Fix {
    x0.plus(k.times(deviation(param, value, x0)).converted(x0.scale)).converted(x0.scale)
}

/// Whether every operation of a step is defined on the given state and
/// measurement: the scales combine at each operation, and the divisor of the
/// gain is not zero.
pub open spec fn step_defined(param: Param, state: State, value: Fix) -> bool {
    let x0 = predicted_state(param, state.x);
    let p0 = predicted_spread(param, state.p);
    let k = gain_of(param, p0);
    &&& param.wf()
    &&& state.wf()
    &&& value.wf()
    &&& state.x.scale.radix == param.f.scale.radix
    &&& value.scale.radix == param.f.scale.radix
    &&& param.f.multiplies(state.x)
    &&& param.f2.multiplies(state.p)
    &&& param.f2.times(state.p).converted(state.p.scale).adds(param.q)
    &&& param.h.multiplies(p0)
    &&& param.h2.multiplies(p0)
    &&& param.h2.times(p0).converted(param.q.scale).adds(param.r)
    &&& param.h.times(p0).divides_by(gain_divisor(param, p0))
    &&& k.multiplies(param.h)
    &&& param.f.scale.sum_of(param.f.scale) is Some
    &&& gain_rest(param, k).multiplies(p0)
    &&& param.h.multiplies(x0)
    &&& value.scale.sum_of(value.scale) is Some
    &&& k.multiplies(deviation(param, value, x0))
    &&& state.x.scale.sum_of(state.x.scale) is Some
}

/// LQE filter.
pub struct Filter;

impl Transducer for Filter {
    type Input = Fix;

    type Output = Fix;

    type Param = Param;

    type State = State;

    open spec fn accepts(param: &Param, state: &State, value: Fix) -> bool {
        step_defined(*param, *state, value)
    }

    open spec fn transfers(param: &Param, pre: &State, value: Fix, post: &State, out: Fix) -> bool {
        let x0 = predicted_state(*param, pre.x);
        let p0 = predicted_spread(*param, pre.p);
        let k = gain_of(*param, p0);
        &&& post.p == corrected_spread(*param, k, p0)
        &&& post.x == corrected_state(*param, k, value, x0)
        &&& out == post.x
        &&& post.wf()
        &&& post.x.scale == pre.x.scale
        &&& post.p.scale == pre.p.scale
    }

    fn apply(param: &Param, state: &mut State, value: Fix) -> (out: Fix) {
        let out_scale = state.x.scale;
        let spread_scale = state.p.scale;
        // prediction
        let x0 = (param.f * state.x).convert(out_scale);
        let p0 = ((param.f2 * state.p).convert(spread_scale) + param.q).convert(spread_scale);
        // correction
        let divisor = (param.h2 * p0).convert(param.q.scale) + param.r;
        let k = ((param.h * p0) / divisor).convert(param.gain);
        let rest = Fix::cast(param.f.scale, 1u8) - (k * param.h).convert(param.f.scale);
        state.p = (rest * p0).convert(spread_scale);
        let deviation = value - (param.h * x0).convert(value.scale);
        state.x = (x0 + (k * deviation).convert(out_scale)).convert(out_scale);
        state.x
    }
}

} // verus!
