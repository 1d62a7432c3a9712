//! Fillable delay line: a delay line that starts out empty and fills up.

use super::pfdl::slot;
use super::pushed;
use vstd::prelude::*;

verus! {

/// Delay line to use as internal storage for filters. It holds up to `N`
/// samples and, once full, forgets the oldest for each new one.
#[derive(Debug)]
pub struct FillableDelayLine<T, const N: usize> {
    /// Statically sized storage for all available values.
    data: [T; N],
    /// The number of actually stored values.
    fill: usize,
    /// The position after the last pushed value.
    tail: usize,
}

impl<T: Copy, const N: usize> FillableDelayLine<T, N> {
    /// The line has at least one slot, holds no more than `N` samples, and
    /// its cursor points into the storage.
    pub closed spec fn valid(&self) -> bool {
        0 < N && self.fill <= N && self.tail < N
    }

    /// The stored samples, the most recent first.
    pub closed spec fn stored(&self) -> Seq<T> {
        Seq::new(self.fill as nat, |age: int| self.data@[slot(self.tail as int, age, N as int)])
    }

    /// The slot of the oldest sample, or `usize::MAX` for an empty line.
    pub closed spec fn head_slot(&self) -> int {
        if self.fill > 0 {
            slot(self.tail as int, self.fill - 1, N as int)
        } else {
            usize::MAX as int
        }
    }

    /// The slot of the most recent sample, or `usize::MAX` for an empty line.
    pub closed spec fn last_slot(&self) -> int {
        if self.fill > 0 {
            slot(self.tail as int, 0, N as int)
        } else {
            usize::MAX as int
        }
    }

    /// Returns current number of values.
    pub fn len(&self) -> (n: usize)
        ensures
            n == self.stored().len(),
            self.valid() ==> n <= N,
    {
        self.fill
    }

    /// Returns maximum number of values.
    pub fn max_len() -> (n: usize)
        ensures
            n == N,
    {
        N
    }

    /// Delay line is empty.
    pub fn is_empty(&self) -> (b: bool)
        ensures
            b == (self.stored().len() == 0),
    {
        self.len() == 0
    }

    /// Delay line is full.
    pub fn is_full(&self) -> (b: bool)
        ensures
            b == (self.stored().len() == N),
    {
        self.len() == Self::max_len()
    }

    /// Push new value to delay line.
    pub fn push(&mut self, value: T)
        requires
            old(self).valid(),
        ensures
            final(self).valid(),
            final(self).stored() == pushed(old(self).stored(), value, N as nat),
    {
        let ghost before = *self;
        self.data[self.tail] = value;
        if self.fill < Self::max_len() {
            self.fill = self.fill + 1;
        }
        self.tail = self.tail + 1;
        Self::wrap(&mut self.tail);
        proof {
            if before.tail + 1 < N {
                vstd::arithmetic::div_mod::lemma_small_mod((before.tail + 1) as nat, N as nat);
            } else {
                vstd::arithmetic::div_mod::lemma_mod_self_0(N as int);
            }
        }
        assert(self.stored() =~= pushed(before.stored(), value, N as nat));
    }

    /// Get iterator over the stored values, from the most recent to the
    /// oldest.
    pub fn iter(&self) -> (it: DelayLineIter<'_, T, N>)
        requires
            self.valid(),
        ensures
            it.valid(),
            it.line() == *self,
            it.remaining() == self.stored().len(),
    {
        DelayLineIter { line: self, head: self.head(), item: self.last() }
    }

    /// A valid line has at least one slot and holds no more samples than it
    /// has slots.
    pub proof fn lemma_bounded(&self)
        requires
            self.valid(),
        ensures
            0 < N,
            self.stored().len() <= N,
    {
    }

    /// Get position of first element of line.
    pub fn head(&self) -> (at: usize)
        requires
            self.valid(),
        ensures
            at == self.head_slot(),
            self.stored().len() > 0 ==> at < N,
    {
        if self.fill > 0 {
            if self.tail < self.fill {
                Self::max_len() - self.fill + self.tail
            } else {
                self.tail - self.fill
            }
        } else {
            usize::MAX
        }
    }

    /// Brings a position back into the storage by taking off whole turns.
    pub fn wrap(item: &mut usize)
        requires
            0 < N,
        ensures
            *final(item) == *old(item) % N,
    {
        while *item >= Self::max_len()
            invariant
                0 < N,
                *item % N == *old(item) % N,
            decreases *item,
        {
            proof {
                vstd::arithmetic::div_mod::lemma_mod_sub_multiples_vanish(*item as int, N as int);
            }
            *item = *item - Self::max_len();
        }
        proof {
            vstd::arithmetic::div_mod::lemma_small_mod(*item as nat, N as nat);
        }
    }

    /// Get position of last pushed element of line.
    pub fn last(&self) -> (at: usize)
        requires
            self.valid(),
        ensures
            at == self.last_slot(),
            self.stored().len() > 0 ==> at < N,
    {
        if self.fill > 0 {
            if self.tail > 0 {
                self.tail - 1
            } else {
                Self::max_len() - 1
            }
        } else {
            usize::MAX
        }
    }
}

impl<T: Copy + Default, const N: usize> Default for FillableDelayLine<T, N> {
    /// An empty line.
    fn default() -> (line: Self)
        ensures
            0 < N ==> line.valid(),
            line.stored() == Seq::<T>::empty(),
    {
        let value = T::default();
        let line = FillableDelayLine { data: [value; N], fill: 0, tail: 0 };
        assert(line.stored() =~= Seq::<T>::empty());
        line
    }
}

/// Iterator over stored values, from the most recent to the oldest.
pub struct DelayLineIter<'a, T, const N: usize> {
    /// Delay line.
    line: &'a FillableDelayLine<T, N>,
    /// First element position.
    head: usize,
    /// Current position; `usize::MAX` once every sample was given.
    item: usize,
}

impl<'a, T: Copy, const N: usize> DelayLineIter<'a, T, N> {
    /// The iterator walks a valid line; its position is the end mark or a
    /// slot between the most recent and the oldest sample.
    pub closed spec fn valid(&self) -> bool {
        &&& self.line.valid()
        &&& self.head == self.line.head_slot()
        &&& self.line.fill == 0 ==> self.item == usize::MAX
        &&& self.item != usize::MAX ==> self.item == slot(
            self.line.tail as int,
            self.line.fill - self.remaining(),
            N as int,
        ) && 1 <= self.remaining() <= self.line.fill
    }

    /// The line that is walked.
    pub closed spec fn line(&self) -> FillableDelayLine<T, N> {
        *self.line
    }

    /// The number of samples still to come.
    pub closed spec fn remaining(&self) -> nat {
        if self.item == usize::MAX {
            0
        } else if self.item >= self.head {
            (self.item - self.head + 1) as nat
        } else {
            (self.item + N - self.head + 1) as nat
        }
    }

    /// The next sample, or `None` after the oldest one.
    pub fn next(&mut self) -> (r: Option<T>)
        requires
            old(self).valid(),
        ensures
            final(self).valid(),
            final(self).line() == old(self).line(),
            old(self).remaining() == 0 ==> r is None && final(self).remaining() == 0,
            old(self).remaining() > 0 ==> {
                let stored = old(self).line().stored();
                &&& old(self).remaining() <= stored.len()
                &&& final(self).remaining() == old(self).remaining() - 1
                &&& r == Some(stored[stored.len() - old(self).remaining()])
            },
    {
        if self.item != usize::MAX {
            let item = self.item;
            if self.item == self.head {
                self.item = usize::MAX;
            } else if self.item > 0 {
                self.item = self.item - 1;
            } else {
                self.item = N - 1;
            }
            Some(self.line.data[item])
        } else {
            None
        }
    }

    /// The number of samples still to come.
    pub fn len(&self) -> (n: usize)
        requires
            self.valid(),
        ensures
            n == self.remaining(),
    {
        if self.item == usize::MAX {
            0
        } else if self.item >= self.head {
            self.item - self.head + 1
        } else {
            N - self.head + self.item + 1
        }
    }
}

} // verus!
