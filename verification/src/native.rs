//! The primitive integer types as seen by the conversions.

use crate::word::Word;
use vstd::prelude::*;

verus! {

/// A native integer type that fixed-point numbers convert from and to.
pub trait Native: Copy + Sized {
    /// The kind of the type.
    spec fn word() -> Word;

    /// The integer a value of the type stands for.
    spec fn value(self) -> int;

    /// Every value lies in the range of its kind.
    proof fn lemma_value_held(self)
        ensures
            Self::word().holds(self.value()),
    ;

    /// The kind of the type.
    fn kind() -> (w: Word)
        ensures
            w == Self::word(),
    ;

    /// The value as a wide integer.
    fn widen(self) -> (v: i128)
        ensures
            v == self.value(),
            Self::word().holds(v as int),
    ;

    /// The value of this type that keeps the low bits of `v`.
    fn narrow(v: i128) -> (r: Self)
        ensures
            r.value() == Self::word().wrap(v as int),
    ;
}

impl Native for u8 {
    open spec fn word() -> Word {
        Word::U8
    }

    open spec fn value(self) -> int {
        self as int
    }

    proof fn lemma_value_held(self) {
    }

    fn kind() -> (w: Word) {
        Word::U8
    }

    fn widen(self) -> (v: i128) {
        self as i128
    }

    fn narrow(v: i128) -> (r: Self) {
        Word::U8.wrapping(v) as u8
    }
}

impl Native for u16 {
    open spec fn word() -> Word {
        Word::U16
    }

    open spec fn value(self) -> int {
        self as int
    }

    proof fn lemma_value_held(self) {
    }

    fn kind() -> (w: Word) {
        Word::U16
    }

    fn widen(self) -> (v: i128) {
        self as i128
    }

    fn narrow(v: i128) -> (r: Self) {
        Word::U16.wrapping(v) as u16
    }
}

impl Native for u32 {
    open spec fn word() -> Word {
        Word::U32
    }

    open spec fn value(self) -> int {
        self as int
    }

    proof fn lemma_value_held(self) {
    }

    fn kind() -> (w: Word) {
        Word::U32
    }

    fn widen(self) -> (v: i128) {
        self as i128
    }

    fn narrow(v: i128) -> (r: Self) {
        Word::U32.wrapping(v) as u32
    }
}

impl Native for u64 {
    open spec fn word() -> Word {
        Word::U64
    }

    open spec fn value(self) -> int {
        self as int
    }

    proof fn lemma_value_held(self) {
    }

    fn kind() -> (w: Word) {
        Word::U64
    }

    fn widen(self) -> (v: i128) {
        self as i128
    }

    fn narrow(v: i128) -> (r: Self) {
        Word::U64.wrapping(v) as u64
    }
}

impl Native for i8 {
    open spec fn word() -> Word {
        Word::I8
    }

    open spec fn value(self) -> int {
        self as int
    }

    proof fn lemma_value_held(self) {
    }

    fn kind() -> (w: Word) {
        Word::I8
    }

    fn widen(self) -> (v: i128) {
        self as i128
    }

    fn narrow(v: i128) -> (r: Self) {
        Word::I8.wrapping(v) as i8
    }
}

impl Native for i16 {
    open spec fn word() -> Word {
        Word::I16
    }

    open spec fn value(self) -> int {
        self as int
    }

    proof fn lemma_value_held(self) {
    }

    fn kind() -> (w: Word) {
        Word::I16
    }

    fn widen(self) -> (v: i128) {
        self as i128
    }

    fn narrow(v: i128) -> (r: Self) {
        Word::I16.wrapping(v) as i16
    }
}

impl Native for i32 {
    open spec fn word() -> Word {
        Word::I32
    }

    open spec fn value(self) -> int {
        self as int
    }

    proof fn lemma_value_held(self) {
    }

    fn kind() -> (w: Word) {
        Word::I32
    }

    fn widen(self) -> (v: i128) {
        self as i128
    }

    fn narrow(v: i128) -> (r: Self) {
        Word::I32.wrapping(v) as i32
    }
}

impl Native for i64 {
    open spec fn word() -> Word {
        Word::I64
    }

    open spec fn value(self) -> int {
        self as int
    }

    proof fn lemma_value_held(self) {
    }

    fn kind() -> (w: Word) {
        Word::I64
    }

    fn widen(self) -> (v: i128) {
        self as i128
    }

    fn narrow(v: i128) -> (r: Self) {
        Word::I64.wrapping(v) as i64
    }
}

} // verus!
