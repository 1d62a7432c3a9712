//! Native integer kinds and their wrapping and range-checked arithmetic.

use crate::error::Error;
use vstd::prelude::*;

verus! {

/// A native integer kind: the storage a mantissa or a plain number lives in.
#[derive(Clone, Copy, Debug, PartialEq, Eq, Hash, Structural)]
pub enum Word {
    /// Unsigned, 8 bits.
    U8,
    /// Unsigned, 16 bits.
    U16,
    /// Unsigned, 32 bits.
    U32,
    /// Unsigned, 64 bits.
    U64,
    /// Signed, 8 bits.
    I8,
    /// Signed, 16 bits.
    I16,
    /// Signed, 32 bits.
    I32,
    /// Signed, 64 bits.
    I64,
}

/// Integer division that truncates toward zero, for a positive divisor.
pub open spec fn trunc_div(a: int, d: int) -> int {
    if a >= 0 {
        a / d
    } else {
        -((-a) / d)
    }
}

/// The remainder that goes with `trunc_div`: it has the sign of the dividend.
pub open spec fn trunc_rem(a: int, d: int) -> int {
    if a >= 0 {
        a % d
    } else {
        -((-a) % d)
    }
}

/// The mathematical reading of a checked result computed on machine integers.
pub open spec fn lift(r: Result<i128, Error>) -> Result<int, Error> {
    match r {
        Ok(v) => Ok(v as int),
        Err(e) => Err(e),
    }
}

impl Word {
    /// Width in bits.
    pub open spec fn bits(self) -> nat {
        match self {
            Word::U8 | Word::I8 => 8,
            Word::U16 | Word::I16 => 16,
            Word::U32 | Word::I32 => 32,
            Word::U64 | Word::I64 => 64,
        }
    }

    /// Whether the kind is signed.
    pub open spec fn signed(self) -> bool {
        match self {
            Word::I8 | Word::I16 | Word::I32 | Word::I64 => true,
            _ => false,
        }
    }

    /// Two to the power of the width.
    pub open spec fn modulus(self) -> int {
        match self {
            Word::U8 | Word::I8 => 0x100,
            Word::U16 | Word::I16 => 0x1_0000,
            Word::U32 | Word::I32 => 0x1_0000_0000,
            Word::U64 | Word::I64 => 0x1_0000_0000_0000_0000,
        }
    }

    /// Smallest value of the kind.
    pub open spec fn min_value(self) -> int {
        if self.signed() {
            -(self.modulus() / 2)
        } else {
            0
        }
    }

    /// Largest value of the kind.
    pub open spec fn max_value(self) -> int {
        if self.signed() {
            self.modulus() / 2 - 1
        } else {
            self.modulus() - 1
        }
    }

    /// Whether `v` is a value of the kind.
    pub open spec fn holds(self, v: int) -> bool {
        self.min_value() <= v <= self.max_value()
    }

    /// The value of the kind that is congruent to `v` modulo two to the width:
    /// what a native narrowing conversion or a wrapping operation yields.
    pub open spec fn wrap(self, v: int) -> int {
        let r = v % self.modulus();
        if r > self.max_value() {
            r - self.modulus()
        } else {
            r
        }
    }

    /// Outcome of a range-checked conversion of `v` into the kind.
    pub open spec fn check(self, v: int) -> Result<int, Error> {
        match Error::of_range(v, self.min_value(), self.max_value()) {
            Some(e) => Err(e),
            None => Ok(v),
        }
    }

    /// Whether a conversion from `self` into `to` has to test the lower bound.
    pub open spec fn needs_min_check(self, to: Word) -> bool {
        self.min_value() < to.min_value()
    }

    /// Whether a conversion from `self` into `to` has to test the upper bound.
    pub open spec fn needs_max_check(self, to: Word) -> bool {
        self.max_value() > to.max_value()
    }

    /// Width in bits.
    pub fn width(self) -> (n: u32)
        ensures
            n == self.bits(),
    {
        match self {
            Word::U8 | Word::I8 => 8,
            Word::U16 | Word::I16 => 16,
            Word::U32 | Word::I32 => 32,
            Word::U64 | Word::I64 => 64,
        }
    }

    /// Size in bytes.
    pub fn size(self) -> (n: usize)
        ensures
            n * 8 == self.bits(),
    {
        match self {
            Word::U8 | Word::I8 => 1,
            Word::U16 | Word::I16 => 2,
            Word::U32 | Word::I32 => 4,
            Word::U64 | Word::I64 => 8,
        }
    }

    /// Whether the kind is signed.
    pub fn is_signed(self) -> (s: bool)
        ensures
            s == self.signed(),
    {
        match self {
            Word::I8 | Word::I16 | Word::I32 | Word::I64 => true,
            _ => false,
        }
    }

    /// Smallest value of the kind.
    pub fn min(self) -> (v: i128)
        ensures
            v == self.min_value(),
    {
        match self {
            Word::I8 => -0x80,
            Word::I16 => -0x8000,
            Word::I32 => -0x8000_0000,
            Word::I64 => -0x8000_0000_0000_0000,
            _ => 0,
        }
    }

    /// Largest value of the kind.
    pub fn max(self) -> (v: i128)
        ensures
            v == self.max_value(),
    {
        match self {
            Word::U8 => 0xff,
            Word::U16 => 0xffff,
            Word::U32 => 0xffff_ffff,
            Word::U64 => 0xffff_ffff_ffff_ffff,
            Word::I8 => 0x7f,
            Word::I16 => 0x7fff,
            Word::I32 => 0x7fff_ffff,
            Word::I64 => 0x7fff_ffff_ffff_ffff,
        }
    }

    /// Whether `v` is a value of the kind.
    pub fn contains(self, v: i128) -> (b: bool)
        ensures
            b == self.holds(v as int),
    {
        self.min() <= v && v <= self.max()
    }

    /// The kind of the given width and signedness, for the widths 8, 16, 32 and 64.
    pub fn of_width(bits: u32, signed: bool) -> (w: Option<Word>)
        ensures
            match w {
                Some(w) => w.bits() == bits && w.signed() == signed,
                None => bits != 8 && bits != 16 && bits != 32 && bits != 64,
            },
    {
        if bits == 8 {
            Some(if signed { Word::I8 } else { Word::U8 })
        } else if bits == 16 {
            Some(if signed { Word::I16 } else { Word::U16 })
        } else if bits == 32 {
            Some(if signed { Word::I32 } else { Word::U32 })
        } else if bits == 64 {
            Some(if signed { Word::I64 } else { Word::U64 })
        } else {
            None
        }
    }

    /// Truncating conversion into the kind: keeps the low bits of `v`.
    pub fn wrapping(self, v: i128) -> (r: i128)
        ensures
            r == self.wrap(v as int),
            self.holds(r as int),
    {
        match self {
            Word::U8 => {
                assert((v as u8) as int == (v as int) % 0x100) by (bit_vector);
                (v as u8) as i128
            },
            Word::U16 => {
                assert((v as u16) as int == (v as int) % 0x1_0000) by (bit_vector);
                (v as u16) as i128
            },
            Word::U32 => {
                assert((v as u32) as int == (v as int) % 0x1_0000_0000) by (bit_vector);
                (v as u32) as i128
            },
            Word::U64 => {
                assert((v as u64) as int == (v as int) % 0x1_0000_0000_0000_0000) by (bit_vector);
                (v as u64) as i128
            },
            Word::I8 => {
                assert((v as i8) as int == if (v as int) % 0x100 > 0x7f {
                    (v as int) % 0x100 - 0x100
                } else {
                    (v as int) % 0x100
                }) by (bit_vector);
                (v as i8) as i128
            },
            Word::I16 => {
                assert((v as i16) as int == if (v as int) % 0x1_0000 > 0x7fff {
                    (v as int) % 0x1_0000 - 0x1_0000
                } else {
                    (v as int) % 0x1_0000
                }) by (bit_vector);
                (v as i16) as i128
            },
            Word::I32 => {
                assert((v as i32) as int == if (v as int) % 0x1_0000_0000 > 0x7fff_ffff {
                    (v as int) % 0x1_0000_0000 - 0x1_0000_0000
                } else {
                    (v as int) % 0x1_0000_0000
                }) by (bit_vector);
                (v as i32) as i128
            },
            Word::I64 => {
                assert((v as i64) as int == if (v as int) % 0x1_0000_0000_0000_0000
                    > 0x7fff_ffff_ffff_ffff {
                    (v as int) % 0x1_0000_0000_0000_0000 - 0x1_0000_0000_0000_0000
                } else {
                    (v as int) % 0x1_0000_0000_0000_0000
                }) by (bit_vector);
                (v as i64) as i128
            },
        }
    }

    /// Range-checked conversion of a value of kind `from` into the kind `self`.
    ///
    /// A bound is tested only where the source kind reaches beyond it.
    pub fn checked_from(self, from: Word, v: i128) -> (r: Result<i128, Error>)
        requires
            from.holds(v as int),
        ensures
            lift(r) == self.check(v as int),
            r is Ok <==> self.holds(v as int),
            r == Err::<i128, Error>(Error::TooSmall) <==> v < self.min_value(),
            r == Err::<i128, Error>(Error::TooBig) <==> v > self.max_value(),
    {
        if from.min() < self.min() && v < self.min() {
            return Err(Error::TooSmall);
        }
        if from.max() > self.max() && v > self.max() {
            return Err(Error::TooBig);
        }
        Ok(v)
    }

    /// Range-checked conversion of any value into the kind.
    pub fn checked(self, v: i128) -> (r: Result<i128, Error>)
        ensures
            lift(r) == self.check(v as int),
            r is Ok <==> self.holds(v as int),
    {
        if v < self.min() {
            Err(Error::TooSmall)
        } else if v > self.max() {
            Err(Error::TooBig)
        } else {
            Ok(v)
        }
    }
}

impl Word {
    /// Sum of two values of the kind, wrapped into the kind.
    pub fn wrapping_add(self, a: i128, b: i128) -> (r: i128)
        requires
            self.holds(a as int),
            self.holds(b as int),
        ensures
            r == self.wrap(a + b),
            self.holds(r as int),
    {
        self.wrapping(a + b)
    }

    /// Difference of two values of the kind, wrapped into the kind.
    pub fn wrapping_sub(self, a: i128, b: i128) -> (r: i128)
        requires
            self.holds(a as int),
            self.holds(b as int),
        ensures
            r == self.wrap(a - b),
            self.holds(r as int),
    {
        self.wrapping(a - b)
    }

    /// Negation of a value of the kind, wrapped into the kind.
    pub fn wrapping_neg(self, a: i128) -> (r: i128)
        requires
            self.holds(a as int),
        ensures
            r == self.wrap(-a),
            self.holds(r as int),
    {
        self.wrapping(-a)
    }

    /// Product of two values of the kind, wrapped into the kind.
    pub fn wrapping_mul(self, a: i128, b: i128) -> (r: i128)
        requires
            self.holds(a as int),
            self.holds(b as int),
        ensures
            r == self.wrap(a * b),
            self.holds(r as int),
    {
        match self {
            Word::U64 => {
                let x: u64 = a as u64;
                let y: u64 = b as u64;
                let p: u64 = x.wrapping_mul(y);
                proof {
                    vstd::arithmetic::mul::lemma_mul_nonnegative(a as int, b as int);
                    vstd::arithmetic::div_mod::lemma_mod_bound(a * b, 0x1_0000_0000_0000_0000);
                }
                p as i128
            },
            _ => {
                proof {
                    lemma_product_bound(a as int, b as int, 0x8000_0000_0000_0000);
                }
                self.wrapping(a * b)
            },
        }
    }

    /// Product of two integers of at most 64 bits, if the kind holds it.
    ///
    /// A product beyond the largest value is `TooBig`, one below the smallest is
    /// `TooSmall`.
    pub fn checked_mul(self, a: i128, b: i128) -> (r: Result<i128, Error>)
        requires
            -0x1_0000_0000_0000_0000 < a < 0x1_0000_0000_0000_0000,
            -0x1_0000_0000_0000_0000 < b < 0x1_0000_0000_0000_0000,
        ensures
            lift(r) == self.check(a * b),
    {
        if a == 0 || b == 0 {
            assert(a * b == 0) by (nonlinear_arith)
                requires
                    a == 0 || b == 0,
            ;
            return Ok(0);
        }
        let negative = (a < 0) != (b < 0);
        let x: i128 = if a < 0 { -a } else { a };
        let y: i128 = if b < 0 { -b } else { b };
        // the magnitude of the product, computed without a sign bit to spare
        assert(x * y < 0x1_0000_0000_0000_0000 * 0x1_0000_0000_0000_0000) by (nonlinear_arith)
            requires
                0 <= x < 0x1_0000_0000_0000_0000,
                0 <= y < 0x1_0000_0000_0000_0000,
        ;
        let m: u128 = (x as u128) * (y as u128);
        assert(negative ==> a * b == -(x * y)) by (nonlinear_arith)
            requires
                x == (if a < 0 { -a } else { a as int }),
                y == (if b < 0 { -b } else { b as int }),
                negative == ((a < 0) != (b < 0)),
        ;
        assert(!negative ==> a * b == x * y) by (nonlinear_arith)
            requires
                x == (if a < 0 { -a } else { a as int }),
                y == (if b < 0 { -b } else { b as int }),
                negative == ((a < 0) != (b < 0)),
        ;
        if negative {
            // the smallest value has magnitude max + 1
            if m > (self.max() as u128) + 1 || !self.is_signed() {
                assert(x * y > 0) by (nonlinear_arith)
                    requires
                        x > 0,
                        y > 0,
                ;
                Err(Error::TooSmall)
            } else {
                Ok(-(m as i128))
            }
        } else {
            if m > self.max() as u128 {
                Err(Error::TooBig)
            } else {
                Ok(m as i128)
            }
        }
    }
}

/// Factors bounded in magnitude by `k` have a product bounded by `k * k`.
pub proof fn lemma_product_bound(a: int, b: int, k: int)
    requires
        -k <= a <= k,
        -k <= b <= k,
    ensures
        -(k * k) <= a * b <= k * k,
{
    assert(-(k * k) <= a * b <= k * k) by (nonlinear_arith)
        requires
            -k <= a <= k,
            -k <= b <= k,
    ;
}

/// A value already of the kind is left as it is by `wrap`.
pub proof fn lemma_wrap_fixes_held(w: Word, v: int)
    requires
        w.holds(v),
    ensures
        w.wrap(v) == v,
{
    let m = w.modulus();
    if v >= 0 {
        vstd::arithmetic::div_mod::lemma_small_mod(v as nat, m as nat);
    } else {
        vstd::arithmetic::div_mod::lemma_small_mod((v + m) as nat, m as nat);
        vstd::arithmetic::div_mod::lemma_mod_add_multiples_vanish(v, m);
    }
}

/// `wrap` always lands in the kind, on a value congruent to its argument.
pub proof fn lemma_wrap_holds(w: Word, v: int)
    ensures
        w.holds(w.wrap(v)),
        (w.wrap(v) - v) % w.modulus() == 0,
{
    let m = w.modulus();
    vstd::arithmetic::div_mod::lemma_mod_bound(v, m);
    vstd::arithmetic::div_mod::lemma_fundamental_div_mod(v, m);
    let r = v % m;
    let q = v / m;
    if r > w.max_value() {
        assert(w.wrap(v) - v == -(m * q) - m);
        vstd::arithmetic::div_mod::lemma_mod_multiples_basic(-q - 1, m);
        assert((-q - 1) * m == -(m * q) - m) by (nonlinear_arith);
    } else {
        assert(w.wrap(v) - v == -(m * q));
        vstd::arithmetic::div_mod::lemma_mod_multiples_basic(-q, m);
        assert((-q) * m == -(m * q)) by (nonlinear_arith);
    }
}

/// Congruent arguments wrap to the same value.
pub proof fn lemma_wrap_congruent(w: Word, a: int, b: int)
    requires
        (a - b) % w.modulus() == 0,
    ensures
        w.wrap(a) == w.wrap(b),
{
    let m = w.modulus();
    vstd::arithmetic::div_mod::lemma_mod_equivalence(a, b, m);
}

/// Wrapping into a wider kind first does not change what a kind keeps.
pub proof fn lemma_wrap_narrows(narrow: Word, wide: Word, x: int)
    requires
        narrow.bits() <= wide.bits(),
    ensures
        narrow.wrap(wide.wrap(x)) == narrow.wrap(x),
{
    let n = narrow.modulus();
    let m = wide.modulus();
    let k = m / n;
    assert(m == k * n) by {
        if n == 0x100 {
            assert(m == (m / 0x100) * 0x100);
        } else if n == 0x1_0000 {
            assert(m == (m / 0x1_0000) * 0x1_0000);
        } else if n == 0x1_0000_0000 {
            assert(m == (m / 0x1_0000_0000) * 0x1_0000_0000);
        } else {
            assert(m == n);
        }
    }
    lemma_wrap_holds(wide, x);
    let d = wide.wrap(x) - x;
    vstd::arithmetic::div_mod::lemma_fundamental_div_mod(d, m);
    let q = d / m;
    assert(d == (k * q) * n) by (nonlinear_arith)
        requires
            d == m * q,
            m == k * n,
    ;
    vstd::arithmetic::div_mod::lemma_mod_multiples_basic(k * q, n);
    lemma_wrap_congruent(narrow, wide.wrap(x), x);
}

/// Wrapping an operand first does not change a wrapped product.
pub proof fn lemma_wrap_mul(w: Word, a: int, b: int)
    ensures
        w.wrap(w.wrap(a) * b) == w.wrap(a * b),
        w.wrap(a * w.wrap(b)) == w.wrap(a * b),
{
    let m = w.modulus();
    lemma_wrap_holds(w, a);
    lemma_wrap_holds(w, b);
    let ka = (w.wrap(a) - a) / m;
    let kb = (w.wrap(b) - b) / m;
    vstd::arithmetic::div_mod::lemma_fundamental_div_mod(w.wrap(a) - a, m);
    vstd::arithmetic::div_mod::lemma_fundamental_div_mod(w.wrap(b) - b, m);
    assert(w.wrap(a) * b - a * b == (ka * b) * m) by (nonlinear_arith)
        requires
            w.wrap(a) - a == m * ka,
    ;
    assert(a * w.wrap(b) - a * b == (a * kb) * m) by (nonlinear_arith)
        requires
            w.wrap(b) - b == m * kb,
    ;
    vstd::arithmetic::div_mod::lemma_mod_multiples_basic(ka * b, m);
    vstd::arithmetic::div_mod::lemma_mod_multiples_basic(a * kb, m);
    lemma_wrap_congruent(w, w.wrap(a) * b, a * b);
    lemma_wrap_congruent(w, a * w.wrap(b), a * b);
}

/// A range-checked conversion between two kinds can fail only on a side on
/// which the source kind reaches beyond the destination: widening within one
/// signedness never fails, and a conversion fails as `TooSmall` or `TooBig`
/// only where the lower or the upper bound, respectively, has to be tested.
pub proof fn lemma_checks_needed(from: Word, to: Word, v: int)
    requires
        from.holds(v),
    ensures
        to.check(v) is Ok <==> to.holds(v),
        to.check(v) == Err::<int, Error>(Error::TooSmall) ==> from.needs_min_check(to),
        to.check(v) == Err::<int, Error>(Error::TooBig) ==> from.needs_max_check(to),
        !from.needs_min_check(to) && !from.needs_max_check(to) ==> to.check(v) == Ok::<
            int,
            Error,
        >(v),
        from.signed() == to.signed() && from.bits() <= to.bits() ==> !from.needs_min_check(to)
            && !from.needs_max_check(to),
{
}

} // verus!
