//! Scales by name: the binary and the decimal family, signed and unsigned,
//! and the exponents of the SI and IEC prefixes.

use crate::radix::Radix;
use crate::scale::Scale;
use vstd::prelude::*;

verus! {

/// Exponent of the SI prefix yocto.
pub const YOCTO: i32 = -24;

/// Exponent of the SI prefix zepto.
pub const ZEPTO: i32 = -21;

/// Exponent of the SI prefix atto.
pub const ATTO: i32 = -18;

/// Exponent of the SI prefix femto.
pub const FEMTO: i32 = -15;

/// Exponent of the SI prefix pico.
pub const PICO: i32 = -12;

/// Exponent of the SI prefix nano.
pub const NANO: i32 = -9;

/// Exponent of the SI prefix micro.
pub const MICRO: i32 = -6;

/// Exponent of the SI prefix milli.
pub const MILLI: i32 = -3;

/// Exponent of the SI prefix centi.
pub const CENTI: i32 = -2;

/// Exponent of the SI prefix deci.
pub const DECI: i32 = -1;

/// Exponent of a plain unit.
pub const UNIT: i32 = 0;

/// Exponent of the SI prefix deca.
pub const DECA: i32 = 1;

/// Exponent of the SI prefix hecto.
pub const HECTO: i32 = 2;

/// Exponent of the SI prefix kilo.
pub const KILO: i32 = 3;

/// Exponent of the SI prefix mega.
pub const MEGA: i32 = 6;

/// Exponent of the SI prefix giga.
pub const GIGA: i32 = 9;

/// Exponent of the SI prefix tera.
pub const TERA: i32 = 12;

/// Exponent of the SI prefix peta.
pub const PETA: i32 = 15;

/// Exponent of the SI prefix exa.
pub const EXA: i32 = 18;

/// Exponent of the SI prefix zetta.
pub const ZETA: i32 = 21;

/// Exponent of the SI prefix yotta.
pub const YOTTA: i32 = 24;

/// Exponent of the IEC prefix kibi.
pub const KIBI: i32 = 10;

/// Exponent of the IEC prefix mebi.
pub const MEBI: i32 = 20;

/// Exponent of the IEC prefix gibi.
pub const GIBI: i32 = 30;

/// Exponent of the IEC prefix tebi.
pub const TEBI: i32 = 40;

/// Exponent of the IEC prefix pebi.
pub const PEBI: i32 = 50;

/// Exponent of the IEC prefix exbi.
pub const EXBI: i32 = 60;

/// Exponent of the IEC prefix zebi.
pub const ZEBI: i32 = 70;

/// Exponent of the IEC prefix yobi.
pub const YOBI: i32 = 80;

/// The signed base-2 scale of the given digits and exponent.
pub fn bin(digits: u32, exp: i32) -> (s: Option<Scale>)
    ensures
        s == Scale::make(Radix::P2, digits as int, exp as int),
        s is Some <==> 1 <= digits <= 64,
{
    Scale::new(Radix::P2, digits, exp)
}

/// The unsigned base-2 scale of the given digits and exponent.
pub fn ubin(digits: u32, exp: i32) -> (s: Option<Scale>)
    ensures
        s == Scale::make(Radix::U2, digits as int, exp as int),
        s is Some <==> 1 <= digits <= 64,
{
    Scale::new(Radix::U2, digits, exp)
}

/// The signed base-10 scale of the given digits and exponent.
pub fn dec(digits: u32, exp: i32) -> (s: Option<Scale>)
    ensures
        s == Scale::make(Radix::P10, digits as int, exp as int),
        s is Some <==> 1 <= digits <= 18,
{
    Scale::new(Radix::P10, digits, exp)
}

/// The unsigned base-10 scale of the given digits and exponent.
pub fn udec(digits: u32, exp: i32) -> (s: Option<Scale>)
    ensures
        s == Scale::make(Radix::U10, digits as int, exp as int),
        s is Some <==> 1 <= digits <= 19,
{
    Scale::new(Radix::U10, digits, exp)
}

} // verus!
