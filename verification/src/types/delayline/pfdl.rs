//! Pre-filled delay line: a delay line that starts out full of one value.

use super::{pushed, DelayLine};
use vstd::prelude::*;

verus! {

/// The slot that holds the sample of the given age when the next write goes
/// to `tail`, in a ring of `n` slots.
pub open spec fn slot(tail: int, age: int, n: int) -> int {
    if age < tail {
        tail - 1 - age
    } else {
        tail - 1 - age + n
    }
}

/// Simple pre-filled delay line of `N` samples.
#[derive(Debug)]
pub struct Store<T, const N: usize> {
    /// Statically sized storage for all available values.
    data: [T; N],
    /// The position after the last pushed value.
    tail: usize,
}

impl<T: Copy, const N: usize> Store<T, N> {
    /// The line has at least one slot and its cursor points into the storage.
    pub closed spec fn valid(&self) -> bool {
        0 < N && self.tail < N
    }

    /// The `N` stored samples, the most recent first.
    pub closed spec fn recent(&self) -> Seq<T> {
        Seq::new(N as nat, |age: int| self.data@[slot(self.tail as int, age, N as int)])
    }

    /// A valid line has at least one slot and holds a sample in each.
    pub proof fn lemma_full(&self)
        requires
            self.valid(),
        ensures
            0 < N,
            self.recent().len() == N,
    {
    }

    /// A line filled with `value`.
    pub fn from(value: T) -> (line: Self)
        requires
            0 < N,
        ensures
            line.valid(),
            line.recent() == Seq::new(N as nat, |age: int| value),
    {
        let line = Store { data: [value; N], tail: 0 };
        assert(line.recent() =~= Seq::new(N as nat, |age: int| value));
        line
    }

    /// Walks the samples from the most recent to the oldest.
    pub fn iter(&self) -> (it: Iter<'_, T, N>)
        requires
            self.valid(),
        ensures
            it.valid(),
            it.line() == *self,
            it.remaining() == N,
    {
        Iter { line: self, item: self.tail }
    }
}

impl<T: Copy, const N: usize> DelayLine for Store<T, N> {
    type Value = T;

    open spec fn wf(&self) -> bool {
        self.valid()
    }

    open spec fn samples(&self) -> Seq<T> {
        self.recent()
    }

    open spec fn capacity() -> nat {
        N as nat
    }

    proof fn lemma_bounded(&self) {
    }

    fn push(&mut self, value: T) {
        let ghost before = *self;
        self.data[self.tail] = value;
        self.tail = self.tail + 1;
        if self.tail == N {
            self.tail = 0;
        }
        assert(self.recent() =~= pushed(before.recent(), value, N as nat));
    }

    fn len(&self) -> (n: usize) {
        N
    }

    fn max_len() -> (n: usize) {
        N
    }

    fn is_empty(&self) -> (b: bool) {
        false
    }

    fn is_full(&self) -> (b: bool) {
        true
    }

    fn sample(&self, age: usize) -> (v: T) {
        if age < self.tail {
            self.data[self.tail - 1 - age]
        } else {
            self.data[N - 1 - (age - self.tail)]
        }
    }
}

impl<T: Copy + Default, const N: usize> Default for Store<T, N> {
    /// A line filled with the default value of its samples.
    fn default() -> (line: Self)
        ensures
            0 < N ==> line.valid(),
            line.recent().len() == N,
            forall|age: int|
                0 <= age < N ==> call_ensures(T::default, (), #[trigger] line.recent()[age]),
            forall|age: int| 0 <= age < N ==> #[trigger] line.recent()[age] == line.recent()[0],
    {
        let value = T::default();
        Store { data: [value; N], tail: 0 }
    }
}

/// Iterator over stored values, from the most recent to the oldest.
pub struct Iter<'a, T, const N: usize> {
    /// Delay line.
    line: &'a Store<T, N>,
    /// Current position; `usize::MAX` once every sample was given.
    item: usize,
}

impl<'a, T: Copy, const N: usize> Iter<'a, T, N> {
    /// The iterator walks a valid line and its position is a slot of it or
    /// the end mark.
    pub closed spec fn valid(&self) -> bool {
        self.line.valid() && (self.item == usize::MAX || self.item < N)
    }

    /// The line that is walked.
    pub closed spec fn line(&self) -> Store<T, N> {
        *self.line
    }

    /// The number of samples still to come.
    pub closed spec fn remaining(&self) -> nat {
        if self.item == usize::MAX {
            0
        } else if self.item <= self.line.tail {
            (N - self.line.tail + self.item) as nat
        } else {
            (self.item - self.line.tail) as nat
        }
    }

    /// The next sample, or `None` after the oldest one.
    pub fn next(&mut self) -> (r: Option<T>)
        requires
            old(self).valid(),
        ensures
            final(self).valid(),
            final(self).line() == old(self).line(),
            old(self).remaining() == 0 ==> r is None && final(self).remaining() == 0,
            old(self).remaining() > 0 ==> final(self).remaining() == old(self).remaining() - 1
                && r == Some(old(self).line().recent()[N - old(self).remaining()]),
    {
        if self.item != usize::MAX {
            if self.item > 0 {
                self.item = self.item - 1;
            } else {
                self.item = N - 1;
            }
            let item = self.item;
            if self.item == self.line.tail {
                self.item = usize::MAX;
            }
            Some(self.line.data[item])
        } else {
            None
        }
    }

    /// The number of samples still to come.
    pub fn len(&self) -> (n: usize)
        requires
            self.valid(),
        ensures
            n == self.remaining(),
    {
        if self.item != usize::MAX {
            if self.item <= self.line.tail {
                N - self.line.tail + self.item
            } else {
                self.item - self.line.tail
            }
        } else {
            0
        }
    }

    /// Consumes the iterator and counts the samples still to come.
    pub fn count(self) -> (n: usize)
        requires
            self.valid(),
        ensures
            n == self.remaining(),
    {
        self.len()
    }
}

} // verus!
