//! The failures of a range-checked conversion.

use vstd::prelude::*;

verus! {

/// Why a checked numeric conversion failed.
#[derive(Clone, Copy, Debug, PartialEq, Eq, Structural)]
pub enum Error {
    /// The number lies below the smallest value the destination can hold.
    TooSmall,
    /// The number lies above the largest value the destination can hold.
    TooBig,
}

impl Error {
    /// The human-readable description of the failure.
    pub fn message(self) -> (text: &'static str)
        ensures
            self == Error::TooSmall ==> text@ == "Number is too small to convert"@,
            self == Error::TooBig ==> text@ == "Number is too big to convert"@,
    {
        match self {
            Error::TooSmall => "Number is too small to convert",
            Error::TooBig => "Number is too big to convert",
        }
    }

    /// The failure of a value `v` against the closed range `[lo, hi]`, if any.
    pub open spec fn of_range(v: int, lo: int, hi: int) -> Option<Error> {
        if v < lo {
            Some(Error::TooSmall)
        } else if v > hi {
            Some(Error::TooBig)
        } else {
            None
        }
    }
}

} // verus!
