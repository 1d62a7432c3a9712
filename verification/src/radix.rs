//! The radix of a fixed-point number, the storage it selects for a digit
//! count, and its powers.

use crate::power::{bounded_pow, lemma_pow_grows, wrapping_pow};
use crate::word::Word;
use vstd::arithmetic::power::pow;
use vstd::prelude::*;

verus! {

/// The numeral base of a fixed-point number together with the signedness of
/// its mantissa.
#[derive(Clone, Copy, Debug, PartialEq, Eq, Hash, Structural)]
pub enum Radix {
    /// Base 2, unsigned mantissa.
    U2,
    /// Base 2, signed mantissa.
    P2,
    /// Base 10, unsigned mantissa.
    U10,
    /// Base 10, signed mantissa.
    P10,
}

/// The narrowest storage, in bits, that a mantissa is given whatever its digit
/// count: small mantissas are raised to this width.
pub const MIN_WORD_BITS: u32 = 32;

impl Radix {
    /// The numeral base.
    pub open spec fn base(self) -> int {
        match self {
            Radix::U2 | Radix::P2 => 2,
            Radix::U10 | Radix::P10 => 10,
        }
    }

    /// Whether the mantissa is signed.
    pub open spec fn signed(self) -> bool {
        match self {
            Radix::P2 | Radix::P10 => true,
            _ => false,
        }
    }

    /// The largest supported digit count.
    pub open spec fn max_digits(self) -> nat {
        match self {
            Radix::U2 | Radix::P2 => 64,
            Radix::U10 => 19,
            Radix::P10 => 18,
        }
    }

    /// Whether `digits` is a supported digit count.
    pub open spec fn supports(self, digits: nat) -> bool {
        1 <= digits <= self.max_digits()
    }

    /// The width class of a digit count: the narrowest of 8, 16, 32 and 64 bits
    /// whose native integer holds that many digits.
    pub open spec fn bucket(self, digits: nat) -> nat {
        match self {
            Radix::U2 | Radix::P2 => {
                if digits <= 8 {
                    8
                } else if digits <= 16 {
                    16
                } else if digits <= 32 {
                    32
                } else {
                    64
                }
            },
            Radix::U10 | Radix::P10 => {
                if digits <= 2 {
                    8
                } else if digits <= 4 {
                    16
                } else if digits <= 9 {
                    32
                } else {
                    64
                }
            },
        }
    }

    /// The mantissa storage for a digit count when no storage is narrower than
    /// `min_bits`.
    pub open spec fn word_with(self, digits: nat, min_bits: nat) -> Word {
        let b = self.bucket(digits);
        let bits = if b < min_bits { min_bits } else { b };
        if bits <= 8 {
            if self.signed() { Word::I8 } else { Word::U8 }
        } else if bits <= 16 {
            if self.signed() { Word::I16 } else { Word::U16 }
        } else if bits <= 32 {
            if self.signed() { Word::I32 } else { Word::U32 }
        } else {
            if self.signed() { Word::I64 } else { Word::U64 }
        }
    }

    /// The mantissa storage for a digit count.
    pub open spec fn word(self, digits: nat) -> Word {
        self.word_with(digits, MIN_WORD_BITS as nat)
    }

    /// Smallest mantissa of `digits` digits.
    ///
    /// A signed binary mantissa counts its sign bit among the digits.
    pub open spec fn digit_min(self, digits: nat) -> int {
        match self {
            Radix::U2 | Radix::U10 => 0,
            Radix::P2 => -pow(2, (digits - 1) as nat),
            Radix::P10 => -(pow(10, digits) - 1),
        }
    }

    /// Largest mantissa of `digits` digits.
    pub open spec fn digit_max(self, digits: nat) -> int {
        match self {
            Radix::U2 => pow(2, digits) - 1,
            Radix::P2 => pow(2, (digits - 1) as nat) - 1,
            Radix::U10 | Radix::P10 => pow(10, digits) - 1,
        }
    }

    /// The numeral base.
    pub fn base_value(self) -> (b: i128)
        ensures
            b == self.base(),
    {
        match self {
            Radix::U2 | Radix::P2 => 2,
            Radix::U10 | Radix::P10 => 10,
        }
    }

    /// Whether the mantissa is signed.
    pub fn is_signed(self) -> (s: bool)
        ensures
            s == self.signed(),
    {
        match self {
            Radix::P2 | Radix::P10 => true,
            _ => false,
        }
    }

    /// The largest supported digit count.
    pub fn digit_limit(self) -> (n: u32)
        ensures
            n == self.max_digits(),
    {
        match self {
            Radix::U2 | Radix::P2 => 64,
            Radix::U10 => 19,
            Radix::P10 => 18,
        }
    }

    /// Whether `digits` is a supported digit count.
    pub fn is_supported(self, digits: u32) -> (b: bool)
        ensures
            b == self.supports(digits as nat),
    {
        1 <= digits && digits <= self.digit_limit()
    }

    /// The mantissa storage for a supported digit count when no storage is
    /// narrower than `min_bits`.
    pub fn mantissa_with(self, digits: u32, min_bits: u32) -> (w: Word)
        requires
            self.supports(digits as nat),
        ensures
            w == self.word_with(digits as nat, min_bits as nat),
            w.signed() == self.signed(),
            w.bits() >= self.bucket(digits as nat),
            w.bits() >= min_bits || w.bits() == 64,
    {
        let small = match self {
            Radix::U2 | Radix::P2 => 8,
            Radix::U10 | Radix::P10 => 2,
        };
        let medium = match self {
            Radix::U2 | Radix::P2 => 16,
            Radix::U10 | Radix::P10 => 4,
        };
        let large = match self {
            Radix::U2 | Radix::P2 => 32,
            Radix::U10 | Radix::P10 => 9,
        };
        let bucket: u32 = if digits <= small {
            8
        } else if digits <= medium {
            16
        } else if digits <= large {
            32
        } else {
            64
        };
        let bits = if bucket < min_bits { min_bits } else { bucket };
        let signed = self.is_signed();
        if bits <= 8 {
            if signed { Word::I8 } else { Word::U8 }
        } else if bits <= 16 {
            if signed { Word::I16 } else { Word::U16 }
        } else if bits <= 32 {
            if signed { Word::I32 } else { Word::U32 }
        } else {
            if signed { Word::I64 } else { Word::U64 }
        }
    }

    /// The mantissa storage for a supported digit count.
    pub fn mantissa(self, digits: u32) -> (w: Word)
        requires
            self.supports(digits as nat),
        ensures
            w == self.word(digits as nat),
            w.signed() == self.signed(),
    {
        self.mantissa_with(digits, MIN_WORD_BITS)
    }

    /// `base^n` as a value of the storage `w`, if `w` holds it.
    pub fn ratio(self, w: Word, n: u32) -> (r: Option<i128>)
        ensures
            match r {
                Some(p) => p == pow(self.base(), n as nat) && 1 <= p <= w.max_value(),
                None => pow(self.base(), n as nat) > w.max_value(),
            },
    {
        bounded_pow(self.base_value(), n, w.max())
    }

    /// `base^n` reduced into the storage `w` the way native multiplication
    /// wraps.
    pub fn wrapping_ratio(self, w: Word, n: u32) -> (r: i128)
        ensures
            r == w.wrap(pow(self.base(), n as nat)),
            w.holds(r as int),
    {
        wrapping_pow(w, self.base_value(), n)
    }
}

/// Whether `v` is a mantissa of at most `digits` digits in the radix `r`.
pub open spec fn in_digits(r: Radix, digits: nat, v: int) -> bool {
    r.digit_min(digits) <= v <= r.digit_max(digits)
}

/// The decimal powers at which the storage width changes.
pub proof fn lemma_pow10_marks()
    ensures
        pow(10, 2) == 100,
        pow(10, 4) == 10_000,
        pow(10, 9) == 1_000_000_000,
        pow(10, 18) == 1_000_000_000_000_000_000,
        pow(10, 19) == 10_000_000_000_000_000_000,
{
    vstd::arithmetic::power::lemma_pow1(10);
    vstd::arithmetic::power::lemma_pow_adds(10, 1, 1);
    assert(pow(10, 2) == 10 * 10);
    vstd::arithmetic::power::lemma_pow_adds(10, 2, 2);
    assert(pow(10, 4) == 100 * 100);
    vstd::arithmetic::power::lemma_pow_adds(10, 4, 4);
    assert(pow(10, 8) == 10_000 * 10_000);
    vstd::arithmetic::power::lemma_pow_adds(10, 8, 1);
    assert(pow(10, 9) == 100_000_000 * 10);
    vstd::arithmetic::power::lemma_pow_adds(10, 9, 9);
    assert(pow(10, 18) == 1_000_000_000 * 1_000_000_000);
    vstd::arithmetic::power::lemma_pow_adds(10, 18, 1);
    assert(pow(10, 19) == 1_000_000_000_000_000_000 * 10);
}

/// The binary powers at which the storage width changes.
pub proof fn lemma_pow2_marks()
    ensures
        pow(2, 7) == 0x80,
        pow(2, 8) == 0x100,
        pow(2, 15) == 0x8000,
        pow(2, 16) == 0x1_0000,
        pow(2, 31) == 0x8000_0000,
        pow(2, 32) == 0x1_0000_0000,
        pow(2, 63) == 0x8000_0000_0000_0000,
        pow(2, 64) == 0x1_0000_0000_0000_0000,
{
    vstd::arithmetic::power2::lemma2_to64();
    vstd::arithmetic::power2::lemma2_to64_rest();
    vstd::arithmetic::power2::lemma_pow2(7);
    vstd::arithmetic::power2::lemma_pow2(8);
    vstd::arithmetic::power2::lemma_pow2(15);
    vstd::arithmetic::power2::lemma_pow2(16);
    vstd::arithmetic::power2::lemma_pow2(31);
    vstd::arithmetic::power2::lemma_pow2(32);
    vstd::arithmetic::power2::lemma_pow2(63);
    vstd::arithmetic::power2::lemma_pow2(64);
}

/// Every mantissa of a supported digit count fits the storage selected for
/// that count, whatever the narrowest storage is.
pub proof fn lemma_digits_fit_word(r: Radix, digits: nat, min_bits: nat)
    requires
        r.supports(digits),
    ensures
        r.word_with(digits, min_bits).min_value() <= r.digit_min(digits),
        r.digit_max(digits) <= r.word_with(digits, min_bits).max_value(),
        r.digit_min(digits) <= 0 <= r.digit_max(digits),
{
    lemma_pow10_marks();
    lemma_pow2_marks();
    let w = r.word_with(digits, min_bits);
    match r {
        Radix::U2 => {
            let top: nat = if digits <= 8 { 8 } else if digits <= 16 { 16 } else if digits <= 32 { 32 } else { 64 };
            lemma_pow_grows(2, digits, top);
            lemma_pow_grows(2, 0, digits);
        },
        Radix::P2 => {
            let top: nat = if digits <= 8 { 7 } else if digits <= 16 { 15 } else if digits <= 32 { 31 } else { 63 };
            lemma_pow_grows(2, (digits - 1) as nat, top);
            lemma_pow_grows(2, 0, (digits - 1) as nat);
        },
        Radix::U10 | Radix::P10 => {
            let top: nat = if digits <= 2 { 2 } else if digits <= 4 { 4 } else if digits <= 9 { 9 } else if digits <= 18 { 18 } else { 19 };
            lemma_pow_grows(10, digits, top);
            lemma_pow_grows(10, 0, digits);
        },
    }
}

} // verus!
