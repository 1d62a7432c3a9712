//! Digital filters built on fixed-point arithmetic.

use vstd::prelude::*;

pub mod ema;
pub mod ewma;
pub mod fir;
pub mod lqe;

verus! {

/// Filter trait: a filter that keeps its parameters and state in itself.
pub trait Filter {
    /// Input values type.
    type Input;

    /// Output values type.
    type Output;

    /// Apply filter to value and get result.
    fn apply(&mut self, value: Self::Input) -> Self::Output;
}

} // verus!
