//! Delay lines: rings of the most recent samples.

use vstd::prelude::*;

pub mod fadl;
pub mod pfdl;

verus! {

/// What a line holds after `value` is pushed: the new sample in front, and the
/// oldest one dropped where the line was full.
pub open spec fn pushed<T>(samples: Seq<T>, value: T, capacity: nat) -> Seq<T> {
    if samples.len() < capacity {
        seq![value] + samples
    } else {
        seq![value] + samples.drop_last()
    }
}

/// Delay line to use as internal storage for filters: a ring of the most
/// recent samples with a fixed capacity.
pub trait DelayLine {
    /// The type of element.
    type Value: Copy;

    /// The invariant of the line.
    spec fn wf(&self) -> bool;

    /// The stored samples, the most recent first.
    spec fn samples(&self) -> Seq<Self::Value>;

    /// The maximum number of samples in the line.
    spec fn capacity() -> nat;

    /// A well-formed line has at least one slot and never holds more than its
    /// capacity.
    proof fn lemma_bounded(&self)
        requires
            self.wf(),
        ensures
            0 < Self::capacity(),
            self.samples().len() <= Self::capacity(),
    ;

    /// Push new value to line.
    fn push(&mut self, value: Self::Value)
        requires
            old(self).wf(),
        ensures
            final(self).wf(),
            final(self).samples() == pushed(old(self).samples(), value, Self::capacity()),
    ;

    /// Current number of values in line.
    fn len(&self) -> (n: usize)
        requires
            self.wf(),
        ensures
            n == self.samples().len(),
    ;

    /// Maximum number of values in line.
    fn max_len() -> (n: usize)
        ensures
            n == Self::capacity(),
    ;

    /// Delay line is empty.
    fn is_empty(&self) -> (b: bool)
        requires
            self.wf(),
        ensures
            b == (self.samples().len() == 0),
    ;

    /// Delay line is full.
    fn is_full(&self) -> (b: bool)
        requires
            self.wf(),
        ensures
            b == (self.samples().len() == Self::capacity()),
    ;

    /// The sample pushed `age` pushes before the most recent one.
    fn sample(&self, age: usize) -> (v: Self::Value)
        requires
            self.wf(),
            age < self.samples().len(),
        ensures
            v == self.samples()[age as int],
    ;
}

} // verus!
