use uctl::aliases::{bin, dec, ubin, udec, GIBI, KIBI, KILO, MEBI, MILLI, UNIT};
use uctl::fixed::Fix;
use uctl::radix::Radix;
use uctl::scale::Scale;

#[test]
fn named_scales() {
    assert_eq!(dec(4, MILLI), Scale::new(Radix::P10, 4, -3));
    assert_eq!(udec(19, KILO), Scale::new(Radix::U10, 19, 3));
    assert_eq!(bin(10, KIBI), Scale::new(Radix::P2, 10, 10));
    assert_eq!(ubin(64, UNIT), Scale::new(Radix::U2, 64, 0));
    assert_eq!(dec(19, UNIT), None);
    assert_eq!(udec(20, UNIT), None);
    assert_eq!(bin(0, UNIT), None);
    assert_eq!(ubin(65, UNIT), None);
}

#[test]
fn binary_prefixes_convert() {
    let kibi = bin(10, KIBI).unwrap();
    let mebi = bin(10, MEBI).unwrap();
    assert_eq!(Fix::new(kibi, 1024), Fix::new(mebi, 1).convert(kibi));
}

#[test]
fn binary_prefixes_divide() {
    let gibi = bin(2, GIBI).unwrap();
    let kibi = bin(1, KIBI).unwrap();
    let mebi = bin(1, MEBI).unwrap();
    assert_eq!(Fix::new(mebi, 3), Fix::new(gibi, 6) / Fix::new(kibi, 2));
}

#[test]
fn decimal_cents_add_exactly() {
    let cents = dec(3, -2).unwrap();
    assert_eq!(
        Fix::new(dec(4, -2).unwrap(), 0_30),
        Fix::new(cents, 0_10) + Fix::new(cents, 0_20)
    );
    assert_eq!(
        Fix::new(dec(4, MILLI).unwrap(), 0_300),
        Fix::new(dec(4, -2).unwrap(), 0_30).convert(dec(4, MILLI).unwrap())
    );
}
