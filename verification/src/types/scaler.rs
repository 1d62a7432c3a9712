//! Linear scaling of samples from one range to another.
//!
//! With the input range `x0..=x1` and the output range `y0..=y1`:
//!
//! - `factor = (y1 - y0) / (x1 - x0)`
//! - `offset = y0 - x0 * factor`
//! - `y = x * factor + offset`

use crate::fixed::Fix;
use crate::scale::Scale;
use crate::traits::Transducer;
use vstd::prelude::*;

verus! {

/// Scaler parameters.
#[derive(Debug, Clone, Copy)]
pub struct Param {
    /// The slope of the line.
    pub factor: Fix,
    /// The output for an input of zero.
    pub offset: Fix,
}

impl Param {
    /// Both parts are well formed and share a radix.
    pub open spec fn wf(self) -> bool {
        self.factor.wf() && self.offset.wf() && self.factor.scale.radix == self.offset.scale.radix
    }

    /// The numerator `y1 - y0` at the scale of a product of factor and input,
    /// and the denominator `x1 - x0`.
    pub open spec fn slope_parts(scale: Scale, from: (Fix, Fix), to: (Fix, Fix)) -> (Fix, Fix) {
        (to.1.minus(to.0).converted(scale.product_of(from.0.scale)->0), from.1.minus(from.0))
    }

    /// The slope at the scale `scale`.
    pub open spec fn slope(scale: Scale, from: (Fix, Fix), to: (Fix, Fix)) -> Fix {
        let (num, den) = Param::slope_parts(scale, from, to);
        num.over(den).converted(scale)
    }

    /// The parameters that map the range `from` onto the range `to`, with
    /// the factor at `scale` and the offset at the scale of the outputs.
    pub open spec fn of(scale: Scale, from: (Fix, Fix), to: (Fix, Fix)) -> Param {
        let factor = Param::slope(scale, from, to);
        Param { factor, offset: to.0.minus(factor.times(from.0)).converted(to.0.scale) }
    }

    /// Whether the parameters are defined: the ends of each range share a
    /// scale, the scales combine at each operation, and the input range is
    /// not empty in the storage of the numerator.
    pub open spec fn fits(scale: Scale, from: (Fix, Fix), to: (Fix, Fix)) -> bool {
        let (num, den) = Param::slope_parts(scale, from, to);
        &&& scale.wf()
        &&& from.0.wf() && from.1.wf() && to.0.wf() && to.1.wf()
        &&& from.0.scale == from.1.scale
        &&& to.0.scale == to.1.scale
        &&& to.0.scale.radix == from.0.scale.radix
        &&& from.0.scale.sum_of(from.0.scale) is Some
        &&& to.0.scale.sum_of(to.0.scale) is Some
        &&& scale.product_of(from.0.scale) is Some
        &&& num.divides_by(den)
        &&& to.0.scale.sum_of(scale.product_of(from.0.scale)->0) is Some
    }

    /// Init scaler parameters from the input range `from` and the output
    /// range `to`, each given by its two ends.
    pub fn new(scale: Scale, from: (Fix, Fix), to: (Fix, Fix)) -> (param: Param)
        requires
            Param::fits(scale, from, to),
        ensures
            param == Param::of(scale, from, to),
            param.wf(),
            param.factor.scale == scale,
            param.offset.scale == to.0.scale,
    {
        let x0 = from.0;
        let x1 = from.1;
        let y0 = to.0;
        let y1 = to.1;
        let dx = x1 - x0;
        let dy = y1 - y0;
        let wide = scale.product(&x0.scale).unwrap();
        let factor = (dy.convert(wide) / dx).convert(scale);
        let offset = (y0 - factor * x0).convert(y0.scale);
        Param { factor, offset }
    }
}

/// The output for an input: `factor * value + offset` at the scale of the
/// offset.
pub open spec fn scaled(param: Param, value: Fix) -> Fix {
    param.factor.times(value).plus(param.offset).converted(param.offset.scale)
}

/// Maps each sample linearly from one range to another.
pub struct Scaler;

impl Transducer for Scaler {
    type Input = Fix;

    type Output = Fix;

    type Param = Param;

    type State = ();

    open spec fn accepts(param: &Param, state: &(), value: Fix) -> bool {
        &&& param.wf()
        &&& value.wf()
        &&& param.factor.scale.product_of(value.scale) is Some
        &&& param.factor.scale.product_of(value.scale)->0.sum_of(param.offset.scale) is Some
    }

    open spec fn transfers(param: &Param, pre: &(), value: Fix, post: &(), out: Fix) -> bool {
        out == scaled(*param, value) && out.wf() && out.scale == param.offset.scale
    }

    fn apply(param: &Param, state: &mut (), value: Fix) -> (out: Fix) {
        (param.factor * value + param.offset).convert(param.offset.scale)
    }
}

} // verus!
