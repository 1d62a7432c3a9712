use uctl::cast::{Cast, TryCast, TryMul, UnsignedPow};
use uctl::error::Error;
use uctl::fixed::Fix;
use uctl::radix::Radix;
use uctl::scale::Scale;
use uctl::word::Word;

fn scale(radix: Radix, digits: u32, exp: i32) -> Scale {
    Scale::new(radix, digits, exp).unwrap()
}

fn milli(digits: u32) -> Scale {
    scale(Radix::P10, digits, -3)
}

fn kilo(digits: u32) -> Scale {
    scale(Radix::P10, digits, 3)
}

#[test]
fn from_number_from_u16() {
    let a = Fix::cast(milli(4), 9u16);
    assert_eq!(a, Fix::new(milli(4), 9_000));
    let a = Fix::cast(milli(16), 9u16);
    assert_eq!(a, Fix::new(milli(16), 9_000));
}

#[test]
fn from_number_from_i16() {
    let a = Fix::cast(milli(4), 11i16);
    assert_eq!(a, Fix::new(milli(4), 11_000));
    let a = Fix::cast(milli(16), -11i16);
    assert_eq!(a, Fix::new(milli(16), -11_000));
}

#[test]
fn from_i16_neg() {
    let a = Fix::cast(milli(4), -11i16);
    assert_eq!(a, Fix::new(milli(4), -11_000));
}

#[test]
fn from_number_from_u32() {
    let a = Fix::cast(milli(8), 9u32);
    assert_eq!(a, Fix::new(milli(8), 9_000));
}

#[test]
fn from_i32() {
    let a = Fix::cast(milli(16), -11i32);
    assert_eq!(a, Fix::new(milli(16), -11_000));
}

#[test]
fn from_i32_neg() {
    let a = Fix::cast(milli(8), -11i32);
    assert_eq!(a, Fix::new(milli(8), -11_000));
}

#[test]
fn from_u64() {
    let a = Fix::cast(milli(16), 9u64);
    assert_eq!(a, Fix::new(milli(16), 9_000));
}

#[test]
fn from_i64_neg() {
    let a = Fix::cast(milli(16), -11i64);
    assert_eq!(a, Fix::new(milli(16), -11_000));
}

#[test]
fn into_u16() {
    let a = Fix::new(milli(4), 9_000);
    assert_eq!(u16::cast(a), 9);
}

#[test]
fn into_u16_neg() {
    let a = Fix::new(milli(4), -9_000);
    assert_eq!(u16::cast(a), 65527);
}

#[test]
fn into_i16() {
    let a = Fix::new(milli(4), 9_000);
    assert_eq!(i16::cast(a), 9);
}

#[test]
fn into_i16_neg() {
    let a = Fix::new(milli(4), -9_000);
    assert_eq!(i16::cast(a), -9);
}

#[test]
fn into_u32() {
    let a = Fix::new(milli(8), 9_000);
    assert_eq!(u32::cast(a), 9);
}

#[test]
fn into_i32_neg() {
    let a = Fix::new(milli(8), -9_000);
    assert_eq!(i32::cast(a), -9);
}

#[test]
fn into_u64() {
    let a = Fix::new(milli(16), 9_000);
    assert_eq!(u64::cast(a), 9);
}

#[test]
fn into_i64_neg() {
    let a = Fix::new(milli(16), -9_000);
    assert_eq!(i64::cast(a), -9);
}

#[test]
fn cast_with_positive_exponent_divides_and_truncates() {
    assert_eq!(Fix::cast(kilo(2), 15_999u32), Fix::new(kilo(2), 15));
    assert_eq!(Fix::cast(kilo(2), -15_999i32), Fix::new(kilo(2), -15));
    assert_eq!(Fix::cast(kilo(2), 999u16), Fix::new(kilo(2), 0));
    assert_eq!(i32::cast(Fix::new(kilo(2), 15)), 15_000);
    assert_eq!(i64::cast(Fix::new(kilo(2), -15)), -15_000);
}

#[test]
fn round_trip_is_within_one_unit() {
    for v in [-32_768i32, -15_999, -1_000, -999, -1, 0, 1, 999, 1_000, 15_999, 32_767] {
        let exact = Fix::try_cast(milli(9), v as i16).unwrap();
        assert_eq!(i16::try_cast(exact).unwrap() as i32, v);
        assert_eq!(i16::cast(exact) as i32, v);
        let coarse = Fix::try_cast(kilo(2), v).unwrap();
        let back: i32 = i32::try_cast(coarse).unwrap();
        assert!((v - back).abs() < 1_000);
        assert!(back.abs() <= v.abs());
        assert!(back == 0 || (back < 0) == (v < 0));
        assert_eq!(back, (v / 1_000) * 1_000);
    }
    let bin = scale(Radix::U2, 32, -8);
    for v in [0u32, 1, 255, 65_535, 0x00ff_ffff] {
        assert_eq!(u32::try_cast(Fix::try_cast(bin, v).unwrap()).unwrap(), v);
    }
    let bin = scale(Radix::P2, 32, 4);
    for v in [-1_000i64, -17, -16, -15, 0, 15, 16, 17, 1_000] {
        let back = i64::try_cast(Fix::try_cast(bin, v).unwrap()).unwrap();
        assert_eq!(back, (v / 16) * 16);
    }
}

#[test]
fn try_cast_into_fix_checks_the_range() {
    // the mantissa of 4 decimal digits lives in 32 bits
    assert_eq!(
        Fix::try_cast(milli(4), 2_147_483i32).unwrap(),
        Fix::new(milli(4), 2_147_483_000)
    );
    assert!(matches!(Fix::try_cast(milli(4), 2_147_484i32), Err(Error::TooBig)));
    assert_eq!(
        Fix::try_cast(milli(4), -2_147_483i32).unwrap(),
        Fix::new(milli(4), -2_147_483_000)
    );
    assert!(matches!(Fix::try_cast(milli(4), -2_147_484i32), Err(Error::TooSmall)));
    assert!(matches!(Fix::try_cast(milli(4), u64::MAX), Err(Error::TooBig)));
    assert!(matches!(Fix::try_cast(milli(4), i64::MIN), Err(Error::TooSmall)));
    let unsigned = scale(Radix::U10, 4, -3);
    assert!(matches!(Fix::try_cast(unsigned, -1i8), Err(Error::TooSmall)));
    assert_eq!(Fix::try_cast(unsigned, 0i8).unwrap(), Fix::new(unsigned, 0));
    // the wrapping conversion of the same numbers
    assert_eq!(
        Fix::cast(milli(4), 2_147_484i32),
        Fix::new(milli(4), (2_147_484_000i64 as i32) as i128)
    );
    // a radix power beyond the storage leaves room for zero only
    let tiny = scale(Radix::P10, 4, -12);
    assert_eq!(Fix::try_cast(tiny, 0u8).unwrap(), Fix::new(tiny, 0));
    assert!(matches!(Fix::try_cast(tiny, 1u8), Err(Error::TooBig)));
    assert!(matches!(Fix::try_cast(tiny, -1i8), Err(Error::TooSmall)));
}

#[test]
fn try_cast_from_fix_checks_the_range() {
    let a = Fix::new(milli(8), 300_000);
    assert_eq!(u16::try_cast(a).unwrap(), 300);
    assert!(matches!(u8::try_cast(a), Err(Error::TooBig)));
    let b = Fix::new(milli(8), -129_000);
    assert!(matches!(i8::try_cast(b), Err(Error::TooSmall)));
    assert!(matches!(u64::try_cast(b), Err(Error::TooSmall)));
    assert_eq!(i16::try_cast(b).unwrap(), -129);
    assert_eq!(i8::try_cast(Fix::new(milli(8), -128_999)).unwrap(), -128);
    let k = Fix::new(kilo(9), 3_000_000);
    assert_eq!(i64::try_cast(k).unwrap(), 3_000_000_000);
    assert!(matches!(i32::try_cast(k), Err(Error::TooBig)));
    let k = Fix::new(kilo(9), -3_000_000);
    assert_eq!(i64::try_cast(k).unwrap(), -3_000_000_000);
    assert!(matches!(i32::try_cast(k), Err(Error::TooSmall)));
    assert!(matches!(u64::try_cast(k), Err(Error::TooSmall)));
    let k = Fix::new(kilo(9), 2_147_483);
    assert_eq!(i64::try_cast(k).unwrap(), 2_147_483_000);
    assert!(matches!(i16::try_cast(k), Err(Error::TooBig)));
}

fn expect(value: i128, from: Word, to: Word) -> Result<i128, Error> {
    if value < to.min() {
        Err(Error::TooSmall)
    } else if value > to.max() {
        Err(Error::TooBig)
    } else {
        assert!(from.contains(value));
        Ok(value)
    }
}

fn same(a: Result<i128, Error>, b: Result<i128, Error>) -> bool {
    match (a, b) {
        (Ok(x), Ok(y)) => x == y,
        (Err(Error::TooBig), Err(Error::TooBig)) => true,
        (Err(Error::TooSmall), Err(Error::TooSmall)) => true,
        _ => false,
    }
}

const WORDS: [Word; 8] = [
    Word::U8,
    Word::U16,
    Word::U32,
    Word::U64,
    Word::I8,
    Word::I16,
    Word::I32,
    Word::I64,
];

#[test]
fn try_cast_is_total_on_every_pair() {
    for from in WORDS {
        for to in WORDS {
            let candidates = [
                to.min() - 1,
                to.min(),
                to.min() + 1,
                -1,
                0,
                1,
                to.max() - 1,
                to.max(),
                to.max() + 1,
                from.min(),
                from.max(),
            ];
            for value in candidates {
                if from.contains(value) {
                    assert!(same(to.checked_from(from, value), expect(value, from, to)));
                    assert!(same(to.checked(value), expect(value, from, to)));
                }
            }
        }
    }
}

#[test]
fn try_cast_boundaries_of_native_pairs() {
    // narrowing, signed to signed: both bounds
    assert!(matches!(<i8 as TryCast<i16>>::try_cast(-129), Err(Error::TooSmall)));
    assert_eq!(<i8 as TryCast<i16>>::try_cast(-128).unwrap(), -128);
    assert_eq!(<i8 as TryCast<i16>>::try_cast(127).unwrap(), 127);
    assert!(matches!(<i8 as TryCast<i16>>::try_cast(128), Err(Error::TooBig)));
    // narrowing, unsigned to unsigned: the upper bound
    assert_eq!(<u8 as TryCast<u16>>::try_cast(0).unwrap(), 0);
    assert_eq!(<u8 as TryCast<u16>>::try_cast(255).unwrap(), 255);
    assert!(matches!(<u8 as TryCast<u16>>::try_cast(256), Err(Error::TooBig)));
    // signed to unsigned of the same width: the lower bound
    assert!(matches!(<u32 as TryCast<i32>>::try_cast(-1), Err(Error::TooSmall)));
    assert_eq!(<u32 as TryCast<i32>>::try_cast(0).unwrap(), 0);
    assert_eq!(<u32 as TryCast<i32>>::try_cast(i32::MAX).unwrap(), 0x7fff_ffff);
    // unsigned to signed of the same width: the upper bound
    assert_eq!(<i64 as TryCast<u64>>::try_cast(0).unwrap(), 0);
    assert_eq!(
        <i64 as TryCast<u64>>::try_cast(0x7fff_ffff_ffff_ffff).unwrap(),
        i64::MAX
    );
    assert!(matches!(
        <i64 as TryCast<u64>>::try_cast(0x8000_0000_0000_0000),
        Err(Error::TooBig)
    ));
    // signed to narrower unsigned: both bounds
    assert!(matches!(<u8 as TryCast<i64>>::try_cast(-1), Err(Error::TooSmall)));
    assert_eq!(<u8 as TryCast<i64>>::try_cast(0).unwrap(), 0);
    assert_eq!(<u8 as TryCast<i64>>::try_cast(255).unwrap(), 255);
    assert!(matches!(<u8 as TryCast<i64>>::try_cast(256), Err(Error::TooBig)));
    // widening within one signedness: no bound
    assert_eq!(<i64 as TryCast<i8>>::try_cast(i8::MIN).unwrap(), -128);
    assert_eq!(<u64 as TryCast<u8>>::try_cast(u8::MAX).unwrap(), 255);
    assert_eq!(<i32 as TryCast<u16>>::try_cast(u16::MAX).unwrap(), 65_535);
}

#[test]
fn cast_of_natives_wraps() {
    assert_eq!(<u8 as Cast<i16>>::cast(-1), 255);
    assert_eq!(<u8 as Cast<u16>>::cast(257), 1);
    assert_eq!(<i8 as Cast<u8>>::cast(200), -56);
    assert_eq!(<i16 as Cast<i64>>::cast(0x1_8000), -32_768);
    assert_eq!(<u64 as Cast<i8>>::cast(-1), u64::MAX);
    assert_eq!(<i64 as Cast<u64>>::cast(u64::MAX), -1);
    assert_eq!(<u32 as Cast<u32>>::cast(7), 7);
    for v in [i64::MIN, -65_537, -1, 0, 1, 65_536, i64::MAX] {
        assert_eq!(<u8 as Cast<i64>>::cast(v), v as u8);
        assert_eq!(<i8 as Cast<i64>>::cast(v), v as i8);
        assert_eq!(<u16 as Cast<i64>>::cast(v), v as u16);
        assert_eq!(<i16 as Cast<i64>>::cast(v), v as i16);
        assert_eq!(<u32 as Cast<i64>>::cast(v), v as u32);
        assert_eq!(<i32 as Cast<i64>>::cast(v), v as i32);
        assert_eq!(<u64 as Cast<i64>>::cast(v), v as u64);
    }
}

#[test]
fn try_mul_fails_on_the_side_of_the_product() {
    assert_eq!(12i8.try_mul(10).unwrap(), 120);
    assert!(matches!(13i8.try_mul(10), Err(Error::TooBig)));
    assert!(matches!((-13i8).try_mul(10), Err(Error::TooSmall)));
    assert_eq!((-64i8).try_mul(2).unwrap(), -128);
    assert!(matches!((-64i8).try_mul(-2), Err(Error::TooBig)));
    assert_eq!(0u64.try_mul(u64::MAX).unwrap(), 0);
    assert!(matches!(u64::MAX.try_mul(u64::MAX), Err(Error::TooBig)));
    assert_eq!(0x1_0000_0000u64.try_mul(0xffff_ffff).unwrap(), 0xffff_ffff_0000_0000);
    assert!(matches!(i64::MIN.try_mul(i64::MIN), Err(Error::TooBig)));
    assert!(matches!(i64::MIN.try_mul(i64::MAX), Err(Error::TooSmall)));
    assert_eq!(i64::MIN.try_mul(1).unwrap(), i64::MIN);
    assert!(matches!(i64::MIN.try_mul(-1), Err(Error::TooBig)));
    assert_eq!(Word::I8.checked_mul(-16, 8).ok(), Some(-128));
    assert!(Word::U8.checked_mul(-1, 1).is_err());
}

#[test]
fn unsigned_pow_wraps() {
    assert_eq!(10u32.unsigned_pow(0), 1);
    assert_eq!(10u32.unsigned_pow(9), 1_000_000_000);
    assert_eq!(10u32.unsigned_pow(10), 10u32.wrapping_pow(10));
    assert_eq!(2i8.unsigned_pow(7), -128);
    assert_eq!(2i8.unsigned_pow(8), 0);
    assert_eq!((-3i16).unsigned_pow(3), -27);
    assert_eq!(3u64.unsigned_pow(41), 3u64.wrapping_pow(41));
    assert_eq!(0u8.unsigned_pow(0), 1);
}

#[test]
fn wrapping_arithmetic_of_words() {
    assert_eq!(Word::U64.wrapping_mul(u64::MAX as i128, u64::MAX as i128), 1);
    assert_eq!(
        Word::I64.wrapping_mul(i64::MIN as i128, -1),
        i64::MIN as i128
    );
    assert_eq!(Word::I32.wrapping_add(i32::MAX as i128, 1), i32::MIN as i128);
    assert_eq!(Word::U16.wrapping_sub(0, 1), 65_535);
    assert_eq!(Word::I8.wrapping_neg(-128), -128);
    assert_eq!(Word::I16.wrapping(0x1_8001), -32_767);
    assert_eq!(Word::U8.wrapping(-1), 255);
    assert_eq!(Word::of_width(16, true), Some(Word::I16));
    assert_eq!(Word::of_width(64, false), Some(Word::U64));
    assert_eq!(Word::of_width(12, false), None);
    assert_eq!(Word::I16.width(), 16);
    assert!(Word::I16.is_signed());
    assert!(!Word::U16.is_signed());
}

#[test]
fn error_messages() {
    assert_eq!(Error::TooSmall.message(), "Number is too small to convert");
    assert_eq!(Error::TooBig.message(), "Number is too big to convert");
}

#[test]
fn cast_divides_the_number_before_it_narrows() {
    let scale = kilo(9);
    let x = Fix::cast(scale, 3_000_000_000i64);
    assert_eq!(x, Fix::new(scale, 3_000_000));
    assert_eq!(Fix::try_cast(scale, 3_000_000_000i64).unwrap(), x);
    assert_eq!(Fix::try_cast(scale, -3_000_000_999i64).unwrap(), Fix::new(scale, -3_000_000));
    assert_eq!(Fix::cast(scale, u64::MAX).bits, ((u64::MAX / 1_000) as i32) as i128);
    assert!(matches!(Fix::try_cast(scale, u64::MAX), Err(Error::TooBig)));
    assert!(matches!(Fix::try_cast(scale, i64::MIN), Err(Error::TooSmall)));
}

#[test]
fn cast_multiplies_beyond_the_storage_of_the_mantissa() {
    let x = Fix::new(kilo(9), 3_000_000);
    assert_eq!(i64::cast(x), 3_000_000_000);
    assert_eq!(u64::cast(x), 3_000_000_000);
    assert_eq!(i32::cast(x), 3_000_000_000i64 as i32);
    assert_eq!(i64::cast(Fix::new(kilo(9), -3_000_000)), -3_000_000_000);
    let far = scale(Radix::P10, 9, 30);
    assert_eq!(i64::cast(Fix::new(far, 7)), 7i64.wrapping_mul(10i64.wrapping_pow(30)));
    assert_eq!(i64::try_cast(Fix::new(far, 0)).unwrap(), 0);
    assert!(matches!(i64::try_cast(Fix::new(far, 7)), Err(Error::TooBig)));
    assert!(matches!(i64::try_cast(Fix::new(far, -7)), Err(Error::TooSmall)));
}

#[test]
fn to_word_keeps_the_low_bits() {
    let x = Fix::new(milli(8), -9_000);
    assert_eq!(x.to_word(Word::U16), 65_527);
    assert_eq!(x.to_word(Word::I8), -9);
    assert_eq!(x.try_to_word(Word::I8).ok(), Some(-9));
    assert!(x.try_to_word(Word::U8).is_err());
}

#[test]
fn cast_between_scales() {
    let milli8 = milli(8);
    let kilo2 = kilo(2);
    let x = Fix::new(milli8, 15_000_999);
    assert_eq!(Fix::cast(kilo2, x), Fix::new(kilo2, 15));
    assert_eq!(Fix::cast(kilo2, x), x.convert(kilo2));
    assert_eq!(Fix::try_cast(kilo2, x).unwrap(), Fix::new(kilo2, 15));
    assert_eq!(Fix::try_cast(milli8, Fix::new(kilo2, 15)).unwrap(), Fix::new(milli8, 15_000_000));
    // the rescaled mantissa decides: one below, at and above each bound
    let wide = scale(Radix::P2, 64, 0);
    let narrow = scale(Radix::P2, 32, 0);
    let min = i32::MIN as i128;
    let max = i32::MAX as i128;
    assert!(matches!(Fix::try_cast(narrow, Fix::new(wide, min - 1)), Err(Error::TooSmall)));
    assert_eq!(Fix::try_cast(narrow, Fix::new(wide, min)).unwrap(), Fix::new(narrow, min));
    assert_eq!(Fix::try_cast(narrow, Fix::new(wide, max)).unwrap(), Fix::new(narrow, max));
    assert!(matches!(Fix::try_cast(narrow, Fix::new(wide, max + 1)), Err(Error::TooBig)));
    assert_eq!(Fix::cast(narrow, Fix::new(wide, max + 1)), Fix::new(narrow, min));
    // a coarser exponent divides before the range is tested
    let coarse = scale(Radix::P2, 32, 8);
    assert_eq!(
        Fix::try_cast(coarse, Fix::new(wide, (max + 1) * 256 - 1)).unwrap(),
        Fix::new(coarse, max)
    );
    assert!(matches!(
        Fix::try_cast(coarse, Fix::new(wide, (max + 1) * 256)),
        Err(Error::TooBig)
    ));
}
