//! Clamping of samples to a range.

use crate::traits::Transducer;
use core::marker::PhantomData;
use vstd::prelude::*;
use vstd::std_specs::cmp::{PartialOrdIs, PartialOrdSpec};

verus! {

/// One end of a range of values.
#[derive(Debug)]
pub enum Bound<T> {
    /// The end belongs to the range.
    Included(T),
    /// The end itself is outside the range.
    Excluded(T),
    /// The range has no end on this side.
    Unbounded,
}

/// A range of values given by its two ends.
#[derive(Debug)]
pub struct Bounds<T> {
    /// The lower end.
    pub start: Bound<T>,
    /// The upper end.
    pub end: Bound<T>,
}

impl<T> Bounds<T> {
    /// Every value from `start` on: `start..`.
    pub fn from(start: T) -> (r: Self)
        ensures
            r.start == Bound::Included(start),
            r.end == Bound::<T>::Unbounded,
    {
        Bounds { start: Bound::Included(start), end: Bound::Unbounded }
    }

    /// Every value below `end`: `..end`.
    pub fn to(end: T) -> (r: Self)
        ensures
            r.start == Bound::<T>::Unbounded,
            r.end == Bound::Excluded(end),
    {
        Bounds { start: Bound::Unbounded, end: Bound::Excluded(end) }
    }

    /// Every value up to and including `end`: `..=end`.
    pub fn to_inclusive(end: T) -> (r: Self)
        ensures
            r.start == Bound::<T>::Unbounded,
            r.end == Bound::Included(end),
    {
        Bounds { start: Bound::Unbounded, end: Bound::Included(end) }
    }

    /// The values from `start` up to, but without, `end`: `start..end`.
    pub fn range(start: T, end: T) -> (r: Self)
        ensures
            r.start == Bound::Included(start),
            r.end == Bound::Excluded(end),
    {
        Bounds { start: Bound::Included(start), end: Bound::Excluded(end) }
    }

    /// The values from `start` up to and including `end`: `start..=end`.
    pub fn inclusive(start: T, end: T) -> (r: Self)
        ensures
            r.start == Bound::Included(start),
            r.end == Bound::Included(end),
    {
        Bounds { start: Bound::Included(start), end: Bound::Included(end) }
    }

    /// Every value: `..`.
    pub fn full() -> (r: Self)
        ensures
            r.start == Bound::<T>::Unbounded,
            r.end == Bound::<T>::Unbounded,
    {
        Bounds { start: Bound::Unbounded, end: Bound::Unbounded }
    }
}

/// A value raised to the lower end of a range: a value below an end that
/// belongs to the range, or not above one that does not, becomes that end.
pub open spec fn raised<T: PartialOrd>(start: Bound<T>, value: T) -> T {
    match start {
        Bound::Included(from) => if value.is_lt(&from) {
            from
        } else {
            value
        },
        Bound::Excluded(from) => if value.is_le(&from) {
            from
        } else {
            value
        },
        Bound::Unbounded => value,
    }
}

/// A value lowered to the upper end of a range: a value above an end that
/// belongs to the range, or not below one that does not, becomes that end.
pub open spec fn lowered<T: PartialOrd>(end: Bound<T>, value: T) -> T {
    match end {
        Bound::Included(to) => if value.is_gt(&to) {
            to
        } else {
            value
        },
        Bound::Excluded(to) => if value.is_ge(&to) {
            to
        } else {
            value
        },
        Bound::Unbounded => value,
    }
}

/// A value clamped to a range: raised to the lower end, then lowered to the
/// upper end.
pub open spec fn clamped<T: PartialOrd>(range: Bounds<T>, value: T) -> T {
    lowered(range.end, raised(range.start, value))
}

/// Clamps each sample to the range given as parameter.
pub struct Clamper<T> {
    val: PhantomData<T>,
}

impl<T: Copy + PartialOrd> Transducer for Clamper<T> {
    type Input = T;

    type Output = T;

    type Param = Bounds<T>;

    type State = ();

    open spec fn accepts(param: &Bounds<T>, state: &(), value: T) -> bool {
        true
    }

    open spec fn transfers(param: &Bounds<T>, pre: &(), value: T, post: &(), out: T) -> bool {
        T::obeys_partial_cmp_spec() ==> out == clamped(*param, value)
    }

    fn apply(param: &Bounds<T>, state: &mut (), value: T) -> (out: T) {
        let value = match &param.start {
            Bound::Included(from) => {
                if value < *from {
                    *from
                } else {
                    value
                }
            },
            Bound::Excluded(from) => {
                if value <= *from {
                    *from
                } else {
                    value
                }
            },
            Bound::Unbounded => value,
        };
        match &param.end {
            Bound::Included(to) => {
                if value > *to {
                    *to
                } else {
                    value
                }
            },
            Bound::Excluded(to) => {
                if value >= *to {
                    *to
                } else {
                    value
                }
            },
            Bound::Unbounded => value,
        }
    }
}

} // verus!
