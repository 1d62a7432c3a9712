//! Finite impulse response filter.

use crate::algebra::lemma_times_exact;
use crate::exact::lemma_convert_same;
use crate::fixed::Fix;
use crate::scale::Scale;
use crate::traits::Transducer;
use crate::types::delayline::{pushed, DelayLine};
use crate::word::lemma_wrap_fixes_held;
use core::marker::PhantomData;
use vstd::prelude::*;

verus! {

/// FIR filter parameters: the weights, the first for the current sample and
/// the following ones for ever older samples, and the scale of the output.
#[derive(Debug)]
pub struct Param {
    /// Filter weights; one more than the order of the filter.
    pub weights: Vec<Fix>,
    /// Scale of the output values.
    pub output: Scale,
}

impl Param {
    /// There is a weight for the current sample, every weight is well formed
    /// and all share one scale, and the output scale is well formed.
    pub open spec fn wf(&self) -> bool {
        &&& self.weights@.len() >= 1
        &&& self.output.wf()
        &&& forall|k: int|
            0 <= k < self.weights@.len() ==> (#[trigger] self.weights@[k]).wf()
                && self.weights@[k].scale == self.weights@[0].scale
    }

    /// Parameters with the given weights and output scale.
    pub fn new(weights: Vec<Fix>, output: Scale) -> (param: Param)
        ensures
            param.weights == weights,
            param.output == output,
    {
        Param { weights, output }
    }
}

/// The samples of a delay line are well formed and share the scale `scale`.
pub open spec fn uniform(samples: Seq<Fix>, scale: Scale) -> bool {
    forall|k: int| 0 <= k < samples.len() ==> (#[trigger] samples[k]).wf() && samples[k].scale == scale
}

/// The weighted sum of the current sample and the `terms` most recent past
/// samples: the product of the first weight and the current sample,
/// converted to the output scale, to which the product of each further
/// weight and the sample of that age is added in turn.
pub open spec fn weighted(
    weights: Seq<Fix>,
    samples: Seq<Fix>,
    value: Fix,
    output: Scale,
    terms: nat,
) -> Fix
    decreases terms,
{
    if terms == 0 {
        weights[0].times(value).converted(output)
    } else {
        weighted(weights, samples, value, output, (terms - 1) as nat).increased(
            weights[terms as int].times(samples[terms - 1]),
        )
    }
}

/// The number of past samples that enter the sum: as many as there are
/// weights after the first and samples in the line.
pub open spec fn depth(weights: Seq<Fix>, samples: Seq<Fix>) -> nat {
    if weights.len() - 1 <= samples.len() {
        (weights.len() - 1) as nat
    } else {
        samples.len()
    }
}

/// The sum of the products of the mantissas of the first `terms + 1` weights
/// and of the current and the `terms` most recent past samples.
pub open spec fn dot(weights: Seq<Fix>, samples: Seq<Fix>, value: Fix, terms: nat) -> int
    decreases terms,
{
    if terms == 0 {
        weights[0].bits * value.bits
    } else {
        dot(weights, samples, value, (terms - 1) as nat) + weights[terms as int].bits
            * samples[terms - 1].bits
    }
}

/// Where the output has the scale of the products and neither a product nor
/// a partial sum leaves the storage of the output, the filter computes the
/// plain weighted sum: the mantissa of the output is the sum over `k` of the
/// mantissa of weight `k` times the mantissa of the sample delayed by `k`,
/// the first weight against the current sample.
pub proof fn lemma_weighted_is_dot(
    weights: Seq<Fix>,
    samples: Seq<Fix>,
    value: Fix,
    output: Scale,
    terms: nat,
)
    requires
        terms < weights.len(),
        terms <= samples.len(),
        forall|k: int|
            0 <= k < weights.len() ==> (#[trigger] weights[k]).wf() && weights[k].scale
                == weights[0].scale,
        value.wf(),
        uniform(samples, value.scale),
        weights[0].scale.product_of(value.scale) == Some(output),
        output.word().holds(weights[0].bits * value.bits),
        forall|k: int|
            1 <= k <= terms ==> output.word().holds(
                #[trigger] (weights[k].bits * samples[k - 1].bits),
            ),
        forall|k: nat| k <= terms ==> output.word().holds(#[trigger] dot(weights, samples, value, k)),
    ensures
        weighted(weights, samples, value, output, terms).bits == dot(weights, samples, value, terms),
        weighted(weights, samples, value, output, terms).scale == output,
        weighted(weights, samples, value, output, terms).wf(),
    decreases terms,
{
    if terms == 0 {
        lemma_times_exact(weights[0], value);
        lemma_convert_same(weights[0].times(value));
    } else {
        let before = (terms - 1) as nat;
        lemma_weighted_is_dot(weights, samples, value, output, before);
        let acc = weighted(weights, samples, value, output, before);
        let weight = weights[terms as int];
        let sample = samples[terms - 1];
        assert(weight.wf() && weight.scale == weights[0].scale);
        assert(sample.wf() && sample.scale == value.scale);
        assert(output.word().holds(weight.bits * sample.bits));
        lemma_times_exact(weight, sample);
        let term = weight.times(sample);
        lemma_convert_same(term);
        assert(output.word().holds(dot(weights, samples, value, terms)));
        lemma_wrap_fixes_held(output.word(), acc.bits + term.bits);
    }
}

/// FIR filter over the delay line `L`.
pub struct Filter<L>(PhantomData<L>);

impl<L: DelayLine<Value = Fix>> Transducer for Filter<L> {
    type Input = Fix;

    type Output = Fix;

    type Param = Param;

    type State = L;

    open spec fn accepts(param: &Param, state: &L, value: Fix) -> bool {
        &&& param.wf()
        &&& state.wf()
        &&& value.wf()
        &&& uniform(state.samples(), value.scale)
        &&& param.weights@[0].scale.product_of(value.scale) is Some
        &&& param.output.radix == value.scale.radix
    }

    open spec fn transfers(param: &Param, pre: &L, value: Fix, post: &L, out: Fix) -> bool {
        &&& out == weighted(
            param.weights@,
            pre.samples(),
            value,
            param.output,
            depth(param.weights@, pre.samples()),
        )
        &&& out.wf()
        &&& out.scale == param.output
        &&& post.wf()
        &&& post.samples() == pushed(pre.samples(), value, L::capacity())
        &&& uniform(post.samples(), value.scale)
    }

    fn apply(param: &Param, state: &mut L, value: Fix) -> (out: Fix) {
        let stored = state.len();
        let mut result = (param.weights[0] * value).convert(param.output);
        let mut age: usize = 0;
        while age < stored && age + 1 < param.weights.len()
            invariant
                param.wf(),
                state.wf(),
                value.wf(),
                uniform(state.samples(), value.scale),
                param.weights@[0].scale.product_of(value.scale) is Some,
                param.output.radix == value.scale.radix,
                stored == state.samples().len(),
                age <= stored,
                age + 1 <= param.weights@.len(),
                result.wf(),
                result.scale == param.output,
                result == weighted(
                    param.weights@,
                    state.samples(),
                    value,
                    param.output,
                    age as nat,
                ),
            decreases stored - age,
        {
            let weight = param.weights[age + 1];
            let sample = state.sample(age);
            result.add_assign(weight * sample);
            age = age + 1;
        }
        proof {
            state.lemma_bounded();
        }
        state.push(value);
        result
    }
}

} // verus!
