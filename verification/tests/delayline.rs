use uctl::types::delayline::fadl::FillableDelayLine;
use uctl::types::delayline::pfdl::Store;
use uctl::types::delayline::DelayLine;

#[test]
fn pfdl_max_len() {
    assert_eq!(Store::<i8, 1>::max_len(), 1);
    assert_eq!(Store::<i8, 3>::max_len(), 3);
}

#[test]
fn pfdl_len() {
    let mut dl = Store::<i8, 3>::default();

    assert_eq!(dl.len(), 3);
    dl.push(1);
    assert_eq!(dl.len(), 3);
    dl.push(2);
    assert_eq!(dl.len(), 3);
    dl.push(3);
    assert_eq!(dl.len(), 3);
    dl.push(4);
    assert_eq!(dl.len(), 3);
}

#[test]
fn iter_count() {
    let mut dl = Store::<i8, 3>::default();

    assert_eq!(dl.iter().count(), 3);
    dl.push(1);
    assert_eq!(dl.iter().count(), 3);
    dl.push(2);
    assert_eq!(dl.iter().count(), 3);
    dl.push(3);
    assert_eq!(dl.iter().count(), 3);
    dl.push(4);
    assert_eq!(dl.iter().count(), 3);
    dl.push(5);
    assert_eq!(dl.iter().count(), 3);
}

#[test]
fn iter_len() {
    let dl = Store::<i8, 3>::default();

    {
        let mut it = dl.iter();
        assert_eq!(it.len(), 3);
        assert_eq!(it.next(), Some(0));
        assert_eq!(it.len(), 2);
        assert_eq!(it.next(), Some(0));
        assert_eq!(it.len(), 1);
        assert_eq!(it.next(), Some(0));
        assert_eq!(it.len(), 0);
        assert_eq!(it.next(), None);
        assert_eq!(it.len(), 0);
        assert_eq!(it.next(), None);
    }
}

fn expect_samples(dl: &Store<i8, 3>, expected: [i8; 3]) {
    let mut it = dl.iter();
    assert_eq!(it.next(), Some(expected[0]));
    assert_eq!(it.next(), Some(expected[1]));
    assert_eq!(it.next(), Some(expected[2]));
    assert_eq!(it.next(), None);
    assert_eq!(it.next(), None);
}

#[test]
fn pfdl_iter() {
    let mut dl = Store::<i8, 3>::default();

    expect_samples(&dl, [0, 0, 0]);
    dl.push(1);
    expect_samples(&dl, [1, 0, 0]);
    dl.push(2);
    expect_samples(&dl, [2, 1, 0]);
    dl.push(3);
    expect_samples(&dl, [3, 2, 1]);
    dl.push(4);
    expect_samples(&dl, [4, 3, 2]);
    dl.push(5);
    expect_samples(&dl, [5, 4, 3]);
    dl.push(6);
    expect_samples(&dl, [6, 5, 4]);
    dl.push(7);
    expect_samples(&dl, [7, 6, 5]);
    dl.push(8);
    expect_samples(&dl, [8, 7, 6]);
    dl.push(9);
    expect_samples(&dl, [9, 8, 7]);
    dl.push(10);
    expect_samples(&dl, [10, 9, 8]);
}

#[test]
fn from_value() {
    let dl = Store::<i8, 3>::from(11);

    let mut seen = 0;
    let mut it = dl.iter();
    while let Some(item) = it.next() {
        assert_eq!(item, 11);
        seen += 1;
    }
    assert_eq!(seen, 3);
}

#[test]
fn pfdl_sample_by_age() {
    let mut dl = Store::<i16, 4>::from(-1);

    dl.push(10);
    dl.push(20);
    assert_eq!(dl.sample(0), 20);
    assert_eq!(dl.sample(1), 10);
    assert_eq!(dl.sample(2), -1);
    assert_eq!(dl.sample(3), -1);
    dl.push(30);
    dl.push(40);
    dl.push(50);
    assert_eq!(dl.sample(0), 50);
    assert_eq!(dl.sample(3), 20);
    assert!(dl.is_full());
    assert!(!dl.is_empty());
}

#[test]
fn pfdl_single_slot() {
    let mut dl = Store::<u8, 1>::from(7);

    assert_eq!(dl.iter().count(), 1);
    assert_eq!(dl.iter().next(), Some(7));
    dl.push(9);
    let mut it = dl.iter();
    assert_eq!(it.next(), Some(9));
    assert_eq!(it.next(), None);
}

#[test]
fn fadl_max_len() {
    assert_eq!(FillableDelayLine::<i8, 1>::max_len(), 1);
    assert_eq!(FillableDelayLine::<i8, 3>::max_len(), 3);
}

#[test]
fn fadl_len() {
    let mut dl = FillableDelayLine::<i8, 3>::default();

    assert_eq!(dl.len(), 0);
    dl.push(1);
    assert_eq!(dl.len(), 1);
    dl.push(2);
    assert_eq!(dl.len(), 2);
    dl.push(3);
    assert_eq!(dl.len(), 3);
    dl.push(4);
    assert_eq!(dl.len(), 3);
}

#[test]
fn fadl_iter() {
    let mut dl = FillableDelayLine::<i8, 3>::default();

    assert_eq!(dl.iter().next(), None);
    dl.push(1);
    assert_eq!(dl.len(), 1);
    dl.push(2);
    assert_eq!(dl.len(), 2);
    dl.push(3);
    assert_eq!(dl.len(), 3);
    dl.push(4);
    assert_eq!(dl.len(), 3);
}

#[test]
fn fadl_fill_state() {
    let mut dl = FillableDelayLine::<i8, 2>::default();

    assert!(dl.is_empty());
    assert!(!dl.is_full());
    dl.push(1);
    assert!(!dl.is_empty());
    assert!(!dl.is_full());
    assert_eq!(dl.head(), 0);
    assert_eq!(dl.last(), 0);
    dl.push(2);
    assert!(dl.is_full());
    assert_eq!(dl.head(), 0);
    assert_eq!(dl.last(), 1);
    dl.push(3);
    assert!(dl.is_full());
    assert_eq!(dl.head(), 1);
    assert_eq!(dl.last(), 0);
}

#[test]
fn fadl_iter_gives_every_sample() {
    let mut dl = FillableDelayLine::<i8, 3>::default();

    assert_eq!(dl.iter().len(), 0);
    dl.push(1);
    {
        let mut it = dl.iter();
        assert_eq!(it.len(), 1);
        assert_eq!(it.next(), Some(1));
        assert_eq!(it.next(), None);
        assert_eq!(it.next(), None);
    }
    dl.push(2);
    {
        let mut it = dl.iter();
        assert_eq!(it.next(), Some(2));
        assert_eq!(it.len(), 1);
        assert_eq!(it.next(), Some(1));
        assert_eq!(it.next(), None);
    }
    dl.push(3);
    dl.push(4);
    let mut it = dl.iter();
    assert_eq!(it.len(), 3);
    assert_eq!(it.next(), Some(4));
    assert_eq!(it.next(), Some(3));
    assert_eq!(it.next(), Some(2));
    assert_eq!(it.len(), 0);
    assert_eq!(it.next(), None);
}

#[test]
fn fadl_single_slot() {
    let mut dl = FillableDelayLine::<u8, 1>::default();
    assert_eq!(dl.iter().next(), None);
    dl.push(5);
    dl.push(6);
    let mut it = dl.iter();
    assert_eq!(it.next(), Some(6));
    assert_eq!(it.next(), None);
}

#[test]
fn fadl_wrap() {
    let mut at = 7;
    FillableDelayLine::<i8, 3>::wrap(&mut at);
    assert_eq!(at, 1);
    let mut at = 2;
    FillableDelayLine::<i8, 3>::wrap(&mut at);
    assert_eq!(at, 2);
    let mut at = 3;
    FillableDelayLine::<i8, 3>::wrap(&mut at);
    assert_eq!(at, 0);
}
