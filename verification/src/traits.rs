//! The transducer: a step from input sample to output sample, and the
//! composition of transducers into chains.

use core::marker::PhantomData;
use vstd::prelude::*;

verus! {

/// A transducer consumes one input sample and produces one output sample,
/// given explicit parameters and a state that it alone mutates.
///
/// Filters and regulators implement this trait.
pub trait Transducer {
    /// Input values type.
    type Input;

    /// Output values type.
    type Output;

    /// Parameters type.
    type Param;

    /// State type.
    type State;

    /// What a step asks of parameters, state and input.
    spec fn accepts(param: &Self::Param, state: &Self::State, value: Self::Input) -> bool;

    /// Whether a step from the state `pre` on the input `value` may leave the
    /// state `post` and produce `out`.
    spec fn transfers(
        param: &Self::Param,
        pre: &Self::State,
        value: Self::Input,
        post: &Self::State,
        out: Self::Output,
    ) -> bool;

    /// Applies the transformation to the input value and gives the result.
    fn apply(param: &Self::Param, state: &mut Self::State, value: Self::Input) -> (out:
        Self::Output)
        requires
            Self::accepts(param, old(state), value),
        ensures
            Self::transfers(param, old(state), value, final(state), out),
    ;
}

/// Whether the second stage accepts whatever the first stage may hand it.
pub open spec fn hands_over<A: Transducer, B: Transducer<Input = A::Output>>(
    first: &A::Param,
    state: &A::State,
    value: A::Input,
    second: &B::Param,
    next: &B::State,
) -> bool {
    forall|post: A::State, mid: A::Output| #[trigger]
        A::transfers(first, state, value, &post, mid) ==> B::accepts(second, next, mid)
}

/// Two stages in sequence: the output of the first is the input of the
/// second, and each stage has its own parameters and state.
impl<A: Transducer, B: Transducer<Input = A::Output>> Transducer for (A, B) {
    type Input = A::Input;

    type Output = B::Output;

    type Param = (A::Param, B::Param);

    type State = (A::State, B::State);

    open spec fn accepts(param: &Self::Param, state: &Self::State, value: Self::Input) -> bool {
        &&& A::accepts(&param.0, &state.0, value)
        &&& hands_over::<A, B>(&param.0, &state.0, value, &param.1, &state.1)
    }

    open spec fn transfers(
        param: &Self::Param,
        pre: &Self::State,
        value: Self::Input,
        post: &Self::State,
        out: Self::Output,
    ) -> bool {
        exists|mid: A::Output|
            {
                &&& #[trigger] A::transfers(&param.0, &pre.0, value, &post.0, mid)
                &&& B::transfers(&param.1, &pre.1, mid, &post.1, out)
            }
    }

    fn apply(param: &Self::Param, state: &mut Self::State, value: Self::Input) -> (out:
        Self::Output) {
        let ghost pre = *state;
        let mid = A::apply(&param.0, &mut state.0, value);
        let out = B::apply(&param.1, &mut state.1, mid);
        assert(A::transfers(&param.0, &pre.0, value, &state.0, mid));
        out
    }
}

/// Three stages in sequence.
impl<A, B, C> Transducer for (A, B, C) where
    A: Transducer,
    B: Transducer<Input = A::Output>,
    C: Transducer<Input = B::Output>,
 {
    type Input = A::Input;

    type Output = C::Output;

    type Param = (A::Param, B::Param, C::Param);

    type State = (A::State, B::State, C::State);

    open spec fn accepts(param: &Self::Param, state: &Self::State, value: Self::Input) -> bool {
        &&& A::accepts(&param.0, &state.0, value)
        &&& forall|s0: A::State, m0: A::Output| #[trigger]
            A::transfers(&param.0, &state.0, value, &s0, m0) ==> {
                &&& B::accepts(&param.1, &state.1, m0)
                &&& hands_over::<B, C>(&param.1, &state.1, m0, &param.2, &state.2)
            }
    }

    open spec fn transfers(
        param: &Self::Param,
        pre: &Self::State,
        value: Self::Input,
        post: &Self::State,
        out: Self::Output,
    ) -> bool {
        exists|m0: A::Output, m1: B::Output|
            {
                &&& #[trigger] A::transfers(&param.0, &pre.0, value, &post.0, m0)
                &&& #[trigger] B::transfers(&param.1, &pre.1, m0, &post.1, m1)
                &&& C::transfers(&param.2, &pre.2, m1, &post.2, out)
            }
    }

    fn apply(param: &Self::Param, state: &mut Self::State, value: Self::Input) -> (out:
        Self::Output) {
        let ghost pre = *state;
        let m0 = A::apply(&param.0, &mut state.0, value);
        let m1 = B::apply(&param.1, &mut state.1, m0);
        let out = C::apply(&param.2, &mut state.2, m1);
        assert(A::transfers(&param.0, &pre.0, value, &state.0, m0));
        assert(B::transfers(&param.1, &pre.1, m0, &state.1, m1));
        out
    }
}

/// Four stages in sequence.
impl<A, B, C, D> Transducer for (A, B, C, D) where
    A: Transducer,
    B: Transducer<Input = A::Output>,
    C: Transducer<Input = B::Output>,
    D: Transducer<Input = C::Output>,
 {
    type Input = A::Input;

    type Output = D::Output;

    type Param = (A::Param, B::Param, C::Param, D::Param);

    type State = (A::State, B::State, C::State, D::State);

    open spec fn accepts(param: &Self::Param, state: &Self::State, value: Self::Input) -> bool {
        &&& A::accepts(&param.0, &state.0, value)
        &&& forall|s0: A::State, m0: A::Output| #[trigger]
            A::transfers(&param.0, &state.0, value, &s0, m0) ==> {
                &&& B::accepts(&param.1, &state.1, m0)
                &&& forall|s1: B::State, m1: B::Output| #[trigger]
                    B::transfers(&param.1, &state.1, m0, &s1, m1) ==> {
                        &&& C::accepts(&param.2, &state.2, m1)
                        &&& hands_over::<C, D>(&param.2, &state.2, m1, &param.3, &state.3)
                    }
            }
    }

    open spec fn transfers(
        param: &Self::Param,
        pre: &Self::State,
        value: Self::Input,
        post: &Self::State,
        out: Self::Output,
    ) -> bool {
        exists|m0: A::Output, m1: B::Output, m2: C::Output|
            {
                &&& #[trigger] A::transfers(&param.0, &pre.0, value, &post.0, m0)
                &&& #[trigger] B::transfers(&param.1, &pre.1, m0, &post.1, m1)
                &&& #[trigger] C::transfers(&param.2, &pre.2, m1, &post.2, m2)
                &&& D::transfers(&param.3, &pre.3, m2, &post.3, out)
            }
    }

    fn apply(param: &Self::Param, state: &mut Self::State, value: Self::Input) -> (out:
        Self::Output) {
        let ghost pre = *state;
        let m0 = A::apply(&param.0, &mut state.0, value);
        let m1 = B::apply(&param.1, &mut state.1, m0);
        let m2 = C::apply(&param.2, &mut state.2, m1);
        let out = D::apply(&param.3, &mut state.3, m2);
        assert(A::transfers(&param.0, &pre.0, value, &state.0, m0));
        assert(B::transfers(&param.1, &pre.1, m0, &state.1, m1));
        assert(C::transfers(&param.2, &pre.2, m1, &state.2, m2));
        out
    }
}

/// Five stages in sequence.
impl<A, B, C, D, E> Transducer for (A, B, C, D, E) where
    A: Transducer,
    B: Transducer<Input = A::Output>,
    C: Transducer<Input = B::Output>,
    D: Transducer<Input = C::Output>,
    E: Transducer<Input = D::Output>,
 {
    type Input = A::Input;

    type Output = E::Output;

    type Param = (A::Param, B::Param, C::Param, D::Param, E::Param);

    type State = (A::State, B::State, C::State, D::State, E::State);

    open spec fn accepts(param: &Self::Param, state: &Self::State, value: Self::Input) -> bool {
        &&& A::accepts(&param.0, &state.0, value)
        &&& forall|s0: A::State, m0: A::Output| #[trigger]
            A::transfers(&param.0, &state.0, value, &s0, m0) ==> {
                &&& B::accepts(&param.1, &state.1, m0)
                &&& forall|s1: B::State, m1: B::Output| #[trigger]
                    B::transfers(&param.1, &state.1, m0, &s1, m1) ==> {
                        &&& C::accepts(&param.2, &state.2, m1)
                        &&& forall|s2: C::State, m2: C::Output| #[trigger]
                            C::transfers(&param.2, &state.2, m1, &s2, m2) ==> {
                                &&& D::accepts(&param.3, &state.3, m2)
                                &&& hands_over::<D, E>(
                                    &param.3,
                                    &state.3,
                                    m2,
                                    &param.4,
                                    &state.4,
                                )
                            }
                    }
            }
    }

    open spec fn transfers(
        param: &Self::Param,
        pre: &Self::State,
        value: Self::Input,
        post: &Self::State,
        out: Self::Output,
    ) -> bool {
        exists|m0: A::Output, m1: B::Output, m2: C::Output, m3: D::Output|
            {
                &&& #[trigger] A::transfers(&param.0, &pre.0, value, &post.0, m0)
                &&& #[trigger] B::transfers(&param.1, &pre.1, m0, &post.1, m1)
                &&& #[trigger] C::transfers(&param.2, &pre.2, m1, &post.2, m2)
                &&& #[trigger] D::transfers(&param.3, &pre.3, m2, &post.3, m3)
                &&& E::transfers(&param.4, &pre.4, m3, &post.4, out)
            }
    }

    fn apply(param: &Self::Param, state: &mut Self::State, value: Self::Input) -> (out:
        Self::Output) {
        let ghost pre = *state;
        let m0 = A::apply(&param.0, &mut state.0, value);
        let m1 = B::apply(&param.1, &mut state.1, m0);
        let m2 = C::apply(&param.2, &mut state.2, m1);
        let m3 = D::apply(&param.3, &mut state.3, m2);
        let out = E::apply(&param.4, &mut state.4, m3);
        assert(A::transfers(&param.0, &pre.0, value, &state.0, m0));
        assert(B::transfers(&param.1, &pre.1, m0, &state.1, m1));
        assert(C::transfers(&param.2, &pre.2, m1, &state.2, m2));
        assert(D::transfers(&param.3, &pre.3, m2, &state.3, m3));
        out
    }
}

/// A transducer without state that applies a function to each sample.
pub struct FnTransducer<I, O, F>(PhantomData<(I, O, F)>);

impl<I, O, F: Fn(I) -> O> Transducer for FnTransducer<I, O, F> {
    type Input = I;

    type Output = O;

    type Param = F;

    type State = ();

    open spec fn accepts(param: &F, state: &(), value: I) -> bool {
        call_requires(*param, (value,))
    }

    open spec fn transfers(param: &F, pre: &(), value: I, post: &(), out: O) -> bool {
        call_ensures(*param, (value,), out)
    }

    fn apply(param: &F, state: &mut (), value: I) -> (out: O) {
        param(value)
    }
}

impl<I, O, F: Fn(I) -> O> FnTransducer<I, O, F> {
    /// One step with the contract of the function itself: for callers that
    /// hold a particular function or closure.
    pub fn call(param: &F, value: I) -> (out: O)
        requires
            call_requires(*param, (value,)),
        ensures
            call_ensures(*param, (value,), out),
    {
        let mut state = ();
        <Self as Transducer>::apply(param, &mut state, value)
    }
}

/// Composition is transparent: a pair of stages makes exactly the steps that
/// applying the first stage and then the second to its output makes, for
/// every input and every state.
pub proof fn lemma_pair_is_sequence<A: Transducer, B: Transducer<Input = A::Output>>(
    param: (A::Param, B::Param),
    pre: (A::State, B::State),
    value: A::Input,
    post: (A::State, B::State),
    mid: A::Output,
    out: B::Output,
)
    ensures
        A::transfers(&param.0, &pre.0, value, &post.0, mid) && B::transfers(
            &param.1,
            &pre.1,
            mid,
            &post.1,
            out,
        ) ==> <(A, B) as Transducer>::transfers(&param, &pre, value, &post, out),
        <(A, B) as Transducer>::transfers(&param, &pre, value, &post, out) ==> exists|m: A::Output|
            #[trigger] A::transfers(&param.0, &pre.0, value, &post.0, m) && B::transfers(
                &param.1,
                &pre.1,
                m,
                &post.1,
                out,
            ),
{
}

} // verus!
