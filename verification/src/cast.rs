//! The two conversion disciplines, wrapping and range-checked, between the
//! primitive integer types.

use crate::error::Error;
use crate::native::Native;
use crate::power::wrapping_pow;
use crate::word::lemma_wrap_fixes_held;
use vstd::arithmetic::power::pow;
use vstd::prelude::*;

verus! {

/// Total conversion: truncates or wraps as a native narrowing conversion does
/// and never checks.
pub trait Cast<T>: Sized {
    /// What the conversion asks of its argument.
    spec fn accepts(value: T) -> bool;

    /// Whether `out` is the conversion of `value`.
    spec fn casts(value: T, out: Self) -> bool;

    /// Converts `value`.
    fn cast(value: T) -> (out: Self)
        requires
            Self::accepts(value),
        ensures
            Self::casts(value, out),
    ;
}

/// Range-checked conversion: `TooBig` where the source exceeds the largest
/// value of the destination, `TooSmall` where it is below the smallest; never
/// wraps.
pub trait TryCast<T>: Sized {
    /// What the conversion asks of its argument.
    spec fn accepts(value: T) -> bool;

    /// Whether `out` is the outcome of converting `value`.
    spec fn tries(value: T, out: Result<Self, Error>) -> bool;

    /// Converts `value`, or says why it cannot be converted.
    fn try_cast(value: T) -> (out: Result<Self, Error>)
        requires
            Self::accepts(value),
        ensures
            Self::tries(value, out),
    ;
}

/// Multiplication that fails instead of overflowing.
pub trait TryMul<Rhs = Self> {
    /// The type of the product.
    type Output;

    /// Whether `out` is the outcome of multiplying `self` by `rhs`.
    spec fn multiplies(self, rhs: Rhs, out: Result<Self::Output, Error>) -> bool;

    /// The product, or the side on which it left the range.
    fn try_mul(self, rhs: Rhs) -> (out: Result<Self::Output, Error>)
        ensures
            self.multiplies(rhs, out),
    ;
}

/// Raising to an unsigned power by repeated multiplication, wrapping as native
/// multiplication does.
pub trait UnsignedPow: Sized {
    /// Whether `out` is `self` raised to `exp`.
    spec fn raises(self, exp: u32, out: Self) -> bool;

    /// `self` raised to the power `exp`.
    fn unsigned_pow(self, exp: u32) -> (out: Self)
        ensures
            self.raises(exp, out),
    ;
}

impl<S: Native, D: Native> Cast<S> for D {
    open spec fn accepts(value: S) -> bool {
        true
    }

    open spec fn casts(value: S, out: D) -> bool {
        out.value() == D::word().wrap(value.value())
    }

    fn cast(value: S) -> (out: D) {
        D::narrow(value.widen())
    }
}

impl<S: Native, D: Native> TryCast<S> for D {
    open spec fn accepts(value: S) -> bool {
        true
    }

    open spec fn tries(value: S, out: Result<D, Error>) -> bool {
        match out {
            Ok(d) => D::word().holds(value.value()) && d.value() == value.value(),
            Err(e) => D::word().check(value.value()) == Err::<int, Error>(e),
        }
    }

    fn try_cast(value: S) -> (out: Result<D, Error>) {
        match D::kind().checked_from(S::kind(), value.widen()) {
            Ok(v) => {
                proof {
                    lemma_wrap_fixes_held(D::word(), v as int);
                }
                Ok(D::narrow(v))
            },
            Err(e) => Err(e),
        }
    }
}

impl<T: Native> TryMul for T {
    type Output = T;

    open spec fn multiplies(self, rhs: T, out: Result<T, Error>) -> bool {
        match out {
            Ok(p) => T::word().holds(self.value() * rhs.value()) && p.value() == self.value()
                * rhs.value(),
            Err(e) => T::word().check(self.value() * rhs.value()) == Err::<int, Error>(e),
        }
    }

    fn try_mul(self, rhs: T) -> (out: Result<T, Error>) {
        match T::kind().checked_mul(self.widen(), rhs.widen()) {
            Ok(v) => {
                proof {
                    lemma_wrap_fixes_held(T::word(), v as int);
                }
                Ok(T::narrow(v))
            },
            Err(e) => Err(e),
        }
    }
}

impl<T: Native> UnsignedPow for T {
    open spec fn raises(self, exp: u32, out: T) -> bool {
        out.value() == T::word().wrap(pow(self.value(), exp as nat))
    }

    fn unsigned_pow(self, exp: u32) -> (out: T) {
        let p = wrapping_pow(T::kind(), self.widen(), exp);
        proof {
            lemma_wrap_fixes_held(T::word(), p as int);
        }
        T::narrow(p)
    }
}

} // verus!
