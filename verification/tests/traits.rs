use uctl::traits::{FnTransducer, Transducer};

fn inc(v: i8) -> i16 {
    v as i16 + 1
}

fn dbl(v: i16) -> i32 {
    v as i32 * 2
}

fn neg(v: i32) -> i64 {
    -(v as i64)
}

type Inc = FnTransducer<i8, i16, fn(i8) -> i16>;
type Dbl = FnTransducer<i16, i32, fn(i16) -> i32>;
type Neg = FnTransducer<i32, i64, fn(i32) -> i64>;

#[test]
fn func() {
    type C = Inc;

    assert_eq!(C::apply(&(inc as fn(_) -> _), &mut (), 1), 2);
}

#[test]
fn pipe2() {
    type C = (Inc, Dbl);

    assert_eq!(
        C::apply(&(inc as fn(_) -> _, dbl as fn(_) -> _), &mut ((), ()), 1),
        4
    );
}

#[test]
fn pipe3() {
    type C = (Inc, Dbl, Neg);

    assert_eq!(
        C::apply(
            &(inc as fn(_) -> _, dbl as fn(_) -> _, neg as fn(_) -> _),
            &mut ((), (), ()),
            1
        ),
        -4
    );
}

#[test]
fn pipe2_equals_manual_sequence() {
    type C = (Inc, Dbl);

    for v in i8::MIN..=i8::MAX {
        let mid = Inc::apply(&(inc as fn(_) -> _), &mut (), v);
        let manual = Dbl::apply(&(dbl as fn(_) -> _), &mut (), mid);
        let chained = C::apply(&(inc as fn(_) -> _, dbl as fn(_) -> _), &mut ((), ()), v);
        assert_eq!(chained, manual);
    }
}

#[test]
fn call_applies_the_function() {
    assert_eq!(Inc::call(&(inc as fn(_) -> _), 1), 2);
    assert_eq!(FnTransducer::<i16, i32, _>::call(&dbl, 21), 42);
}
