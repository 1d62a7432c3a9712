//! Powers by repeated multiplication, exact up to a bound or wrapping.

use crate::word::{lemma_wrap_mul, Word};
use vstd::arithmetic::power::pow;
use vstd::prelude::*;

verus! {

/// One more factor: `base^(n + 1)` is `base^n * base`.
pub proof fn lemma_pow_step(base: int, n: nat)
    ensures
        pow(base, n + 1) == pow(base, n) * base,
{
    vstd::arithmetic::power::lemma_pow_adds(base, n, 1);
    vstd::arithmetic::power::lemma_pow1(base);
}

/// Powers of a base of at least one are at least one and do not decrease.
pub proof fn lemma_pow_grows(base: int, lo: nat, hi: nat)
    requires
        base >= 1,
        lo <= hi,
    ensures
        1 <= pow(base, lo) <= pow(base, hi),
{
    vstd::arithmetic::power::lemma_pow_positive(base, lo);
    vstd::arithmetic::power::lemma_pow_increases(base as nat, lo, hi);
}

/// `base^n`, by repeated multiplication, as long as it does not exceed `cap`.
pub fn bounded_pow(base: i128, n: u32, cap: i128) -> (r: Option<i128>)
    requires
        2 <= base <= 16,
        1 <= cap <= 0x1_0000_0000_0000_0000_0000,
    ensures
        match r {
            Some(p) => p == pow(base as int, n as nat) && 1 <= p <= cap,
            None => pow(base as int, n as nat) > cap,
        },
{
    let mut acc: i128 = 1;
    let mut i: u32 = 0;
    proof {
        vstd::arithmetic::power::lemma_pow0(base as int);
    }
    while i < n
        invariant
            2 <= base <= 16,
            1 <= cap <= 0x1_0000_0000_0000_0000_0000,
            i <= n,
            acc == pow(base as int, i as nat),
            1 <= acc <= cap,
        decreases n - i,
    {
        proof {
            lemma_pow_step(base as int, i as nat);
        }
        if acc > cap / base {
            proof {
                vstd::arithmetic::div_mod::lemma_fundamental_div_mod(cap as int, base as int);
                vstd::arithmetic::div_mod::lemma_mod_bound(cap as int, base as int);
                assert(acc * base > cap) by (nonlinear_arith)
                    requires
                        acc >= cap / base + 1,
                        cap == base * (cap / base) + cap % base,
                        cap % base < base,
                        base > 0,
                ;
                lemma_pow_grows(base as int, (i + 1) as nat, n as nat);
            }
            return None;
        }
        proof {
            vstd::arithmetic::div_mod::lemma_fundamental_div_mod(cap as int, base as int);
            vstd::arithmetic::div_mod::lemma_mod_bound(cap as int, base as int);
            assert(1 <= acc * base <= cap) by (nonlinear_arith)
                requires
                    1 <= acc <= cap / base,
                    cap == base * (cap / base) + cap % base,
                    0 <= cap % base,
                    base >= 2,
            ;
        }
        acc = acc * base;
        i = i + 1;
    }
    Some(acc)
}

/// Once a power wraps to zero in a kind, every higher power does.
pub proof fn lemma_wrapped_pow_stays_zero(w: Word, base: int, i: nat, n: nat)
    requires
        i <= n,
        w.wrap(pow(base, i)) == 0,
    ensures
        w.wrap(pow(base, n)) == 0,
{
    let rest = pow(base, (n - i) as nat);
    vstd::arithmetic::power::lemma_pow_adds(base, i, (n - i) as nat);
    lemma_wrap_mul(w, pow(base, i), rest);
    assert(0 * rest == 0);
}

/// `base^n` wrapped into the kind `w`, by repeated wrapping multiplication.
pub fn wrapping_pow(w: Word, base: i128, n: u32) -> (r: i128)
    requires
        w.holds(base as int),
    ensures
        r == w.wrap(pow(base as int, n as nat)),
        w.holds(r as int),
{
    let mut acc: i128 = 1;
    let mut i: u32 = 0;
    proof {
        vstd::arithmetic::power::lemma_pow0(base as int);
        crate::word::lemma_wrap_fixes_held(w, 1);
    }
    while i < n && acc != 0
        invariant
            w.holds(base as int),
            i <= n,
            acc == w.wrap(pow(base as int, i as nat)),
            w.holds(acc as int),
        decreases n - i,
    {
        proof {
            lemma_pow_step(base as int, i as nat);
            lemma_wrap_mul(w, pow(base as int, i as nat), base as int);
        }
        acc = w.wrapping_mul(acc, base);
        i = i + 1;
    }
    proof {
        if i < n {
            lemma_wrapped_pow_stays_zero(w, base as int, i as nat, n as nat);
        }
    }
    acc
}

} // verus!
