use uctl::filter::{ema, ewma, fir, lqe};
use uctl::fixed::Fix;
use uctl::radix::Radix;
use uctl::scale::Scale;
use uctl::traits::Transducer;
use uctl::types::delayline::pfdl::Store;
use uctl::types::scaler;

fn scale(radix: Radix, digits: u32, exp: i32) -> Scale {
    Scale::new(radix, digits, exp).unwrap()
}

fn bin(digits: u32, exp: i32) -> Scale {
    scale(Radix::P2, digits, exp)
}

fn dec(digits: u32, exp: i32) -> Scale {
    scale(Radix::P10, digits, exp)
}

/// The mantissa of a real number at a scale of exponent zero or less,
/// truncated toward zero.
fn fixed(scale: Scale, value: f64) -> Fix {
    let base: f64 = match scale.radix {
        Radix::U2 | Radix::P2 => 2.0,
        Radix::U10 | Radix::P10 => 10.0,
    };
    assert!(scale.exp <= 0);
    let ratio = base.powi(-scale.exp);
    Fix::new(scale, (value * ratio) as i64 as i128)
}

/// The real number a value stands for.
fn decimal(x: Fix) -> f64 {
    let base: f64 = match x.scale.radix {
        Radix::U2 | Radix::P2 => 2.0,
        Radix::U10 | Radix::P10 => 10.0,
    };
    x.bits as f64 * base.powi(x.scale.exp)
}

#[test]
fn from_n_fix_32_64() {
    let a = bin(32, -18);
    let v = bin(32, -13);

    let param = ema::Param::from_steps(a, fixed(bin(31, -18), 2.0));

    assert_eq!(param.alpha, fixed(a, 0.6666667));
    assert_eq!(param.one_sub_alpha, fixed(a, 0.333336));

    let mut state = ema::State::new(fixed(v, 0.0));

    assert_eq!(
        ema::Filter::apply(&param, &mut state, fixed(v, 1.0)),
        fixed(v, 0.6666667)
    );
    assert_eq!(
        ema::Filter::apply(&param, &mut state, fixed(v, 1.0)),
        fixed(v, 0.8888889)
    );
}

#[test]
fn from_n_fix_32_only() {
    let a = bin(32, -18);
    let v = bin(32, -13);

    let param = ema::Param::from_steps(a, fixed(bin(16, -11), 2.0));

    assert_eq!(param.alpha, fixed(a, 0.6666667));
    assert_eq!(param.one_sub_alpha, fixed(a, 0.333336));

    let mut state = ema::State::new(fixed(v, 0.0));

    assert_eq!(
        ema::Filter::apply(&param, &mut state, fixed(v, 1.0)),
        fixed(v, 0.6666667)
    );
    assert_eq!(
        ema::Filter::apply(&param, &mut state, fixed(v, 1.0)),
        fixed(v, 0.8888889)
    );
}

#[test]
fn ema_constant_input_approaches_it() {
    let a = bin(32, -18);
    let v = bin(32, -13);
    let param = ema::Param::from_steps(a, fixed(bin(16, -11), 2.0));
    assert!((decimal(param.alpha) - 0.6667).abs() < 1e-4);
    let mut state = ema::State::new(fixed(v, 0.0));
    let first = ema::Filter::apply(&param, &mut state, fixed(v, 1.0));
    assert!((decimal(first) - 0.6667).abs() < 1e-3);
    assert_eq!(state.last_value, first);
    let second = ema::Filter::apply(&param, &mut state, fixed(v, 1.0));
    assert!((decimal(second) - 0.8889).abs() < 1e-3);
    assert_eq!(second.scale, v);
}

#[test]
fn ema_without_smoothing() {
    let a = bin(32, -18);
    let v = bin(32, -13);
    // one step of smoothing: alpha is one
    let param = ema::Param::from_steps(a, fixed(bin(16, -11), 1.0));
    assert_eq!(param.alpha, fixed(a, 1.0));
    assert_eq!(param.one_sub_alpha, fixed(a, 0.0));
    let mut state = ema::State::new(fixed(v, 0.25));
    assert_eq!(
        ema::Filter::apply(&param, &mut state, fixed(v, -3.5)),
        fixed(v, -3.5)
    );
    // a smoothing time equal to the period: alpha is one
    let t = bin(16, -8);
    let param = ema::Param::from_time(a, fixed(t, 0.5), fixed(t, 0.5));
    assert_eq!(param.alpha, fixed(a, 1.0));
    assert_eq!(param.one_sub_alpha, fixed(a, 0.0));
}

#[test]
fn ema_from_alpha_time_and_pt1() {
    let a = bin(32, -18);
    let t = bin(16, -8);
    let param = ema::Param::from_alpha(fixed(a, 0.25));
    assert_eq!(param.alpha, fixed(a, 0.25));
    assert_eq!(param.one_sub_alpha, fixed(a, 0.75));
    // alpha = 2 * period / (time + period) = 2 * 0.5 / 2.0
    let param = ema::Param::from_time(a, fixed(t, 1.5), fixed(t, 0.5));
    assert_eq!(param.alpha, fixed(a, 0.5));
    assert_eq!(param.one_sub_alpha, fixed(a, 0.5));
    // alpha = period / (time + period) = 0.5 / 2.0
    let param = ema::Param::from_pt1(a, fixed(t, 1.5), fixed(t, 0.5));
    assert_eq!(param.alpha, fixed(a, 0.25));
    assert_eq!(param.one_sub_alpha, fixed(a, 0.75));
}

#[test]
fn ema_with_gain_and_to() {
    let a = bin(16, -8);
    let param = ema::Param::from_alpha(fixed(a, 0.25));
    let gained = param.with_gain(fixed(bin(8, -2), 1.5));
    assert_eq!(gained.alpha, fixed(bin(24, -10), 0.375));
    assert_eq!(gained.one_sub_alpha, fixed(bin(24, -10), 1.125));
    let moved = param.to(bin(32, -16));
    assert_eq!(moved.alpha, fixed(bin(32, -16), 0.25));
    assert_eq!(moved.one_sub_alpha, fixed(bin(32, -16), 0.75));
}

#[test]
fn ewma_n_fix_32_64() {
    let a = bin(32, -18);
    let v = bin(32, -13);

    let param = ewma::Param::from_n(a, fixed(bin(32, -18), 2.0));

    assert_eq!(param.alpha, fixed(a, 0.6666667));
    assert_eq!(param.one_sub_alpha, fixed(a, 0.333336));

    let mut state = ewma::State::new(fixed(v, 0.0));

    assert_eq!(
        ewma::Filter::apply(&param, &mut state, fixed(v, 1.0)),
        fixed(v, 0.6666667)
    );
    assert_eq!(
        ewma::Filter::apply(&param, &mut state, fixed(v, 1.0)),
        fixed(v, 0.8888889)
    );
}

#[test]
fn ewma_n_fix_32_only() {
    let a = bin(32, -18);
    let v = bin(32, -13);

    let param = ewma::Param::from_n(a, fixed(bin(16, -11), 2.0));

    assert_eq!(param.alpha, fixed(a, 0.6666667));
    assert_eq!(param.one_sub_alpha, fixed(a, 0.333336));

    let mut state = ewma::State::new(fixed(v, 0.0));

    assert_eq!(
        ewma::Filter::apply(&param, &mut state, fixed(v, 1.0)),
        fixed(v, 0.6666667)
    );
    assert_eq!(
        ewma::Filter::apply(&param, &mut state, fixed(v, 1.0)),
        fixed(v, 0.8888889)
    );
}

#[test]
fn ewma_from_alpha_and_time() {
    let a = bin(32, -18);
    let param = ewma::Param::from_alpha(fixed(a, 0.25));
    assert_eq!(param.alpha, fixed(a, 0.25));
    assert_eq!(param.one_sub_alpha, fixed(a, 0.75));
    // alpha = 2 * 0.5 / (1.5 + 0.5) at the scale of the quotient
    let param = ewma::Param::from_time(fixed(bin(16, -2), 1.5), fixed(bin(32, -10), 0.5));
    assert_eq!(param.alpha, fixed(bin(16, -8), 0.5));
    assert_eq!(param.one_sub_alpha, fixed(bin(16, -8), 0.5));
}

fn whole(value: i128) -> Fix {
    Fix::new(bin(8, 0), value)
}

#[test]
fn fir_i8_n3() {
    let param = fir::Param::new(vec![whole(9), whole(1), whole(7), whole(4)], bin(8, 0));
    let mut state = Store::<Fix, 3>::from(whole(0));

    type Filter1 = fir::Filter<Store<Fix, 3>>;

    assert_eq!(Filter1::apply(&param, &mut state, whole(0)), whole(0));
    assert_eq!(Filter1::apply(&param, &mut state, whole(1)), whole(9));
    assert_eq!(Filter1::apply(&param, &mut state, whole(0)), whole(1));
    assert_eq!(Filter1::apply(&param, &mut state, whole(0)), whole(7));
    assert_eq!(Filter1::apply(&param, &mut state, whole(0)), whole(4));
    assert_eq!(Filter1::apply(&param, &mut state, whole(0)), whole(0));
    assert_eq!(Filter1::apply(&param, &mut state, whole(-1)), whole(-9));
    assert_eq!(Filter1::apply(&param, &mut state, whole(1)), whole(8));
    assert_eq!(Filter1::apply(&param, &mut state, whole(3)), whole(21));
    assert_eq!(Filter1::apply(&param, &mut state, whole(-7)), whole(-57));
    assert_eq!(Filter1::apply(&param, &mut state, whole(-7)), whole(-45));
    assert_eq!(Filter1::apply(&param, &mut state, whole(10)), whole(46));
}

#[test]
fn fir_fix_base10_n3() {
    let i = dec(8, -6);
    let o = dec(16, -9);
    let p = dec(8, -3);

    let param = fir::Param::new(
        vec![
            Fix::new(p, 0_456),
            Fix::new(p, -0_137),
            Fix::new(p, 0_702),
            Fix::new(p, -1_421),
        ],
        o,
    );
    let mut state = Store::<Fix, 3>::from(Fix::new(i, 0));

    type Filter1 = fir::Filter<Store<Fix, 3>>;

    assert_eq!(
        Filter1::apply(&param, &mut state, Fix::new(i, 0_000)),
        Fix::new(o, 0_000)
    );
    assert_eq!(
        Filter1::apply(&param, &mut state, Fix::new(i, 1_000)),
        Fix::new(o, 456_000)
    );
    assert_eq!(
        Filter1::apply(&param, &mut state, Fix::new(i, 0_000)),
        Fix::new(o, -137_000)
    );
    assert_eq!(
        Filter1::apply(&param, &mut state, Fix::new(i, 0_000)),
        Fix::new(o, 702_000)
    );
    assert_eq!(
        Filter1::apply(&param, &mut state, Fix::new(i, 0_000)),
        Fix::new(o, -1_421_000)
    );
    assert_eq!(
        Filter1::apply(&param, &mut state, Fix::new(i, 0_000)),
        Fix::new(o, 0_000)
    );

    assert_eq!(
        Filter1::apply(&param, &mut state, Fix::new(i, 0_123)),
        Fix::new(o, 56_088)
    );
    assert_eq!(
        Filter1::apply(&param, &mut state, Fix::new(i, 11_234)),
        Fix::new(o, 5_105_853)
    );
    assert_eq!(
        Filter1::apply(&param, &mut state, Fix::new(i, 5_001)),
        Fix::new(o, 827_744)
    );
    assert_eq!(
        Filter1::apply(&param, &mut state, Fix::new(i, -3_120)),
        Fix::new(o, 5_603_628)
    );
    assert_eq!(
        Filter1::apply(&param, &mut state, Fix::new(i, -8_998)),
        Fix::new(o, -16_128_460)
    );
}

#[test]
fn fir_scenario_matches_direct_sums() {
    let weights = [9i128, 1, 7, 4];
    let inputs = [0i128, 1, 0, 0, 0, 0, -1, 1, 3, -7, -7, 10];
    let expected = [0i128, 9, 1, 7, 4, 0, -9, 8, 21, -57, -45, 46];
    let param = fir::Param::new(weights.iter().map(|w| whole(*w)).collect(), bin(8, 0));
    let mut state = Store::<Fix, 3>::from(whole(0));
    for (n, x) in inputs.iter().enumerate() {
        let mut sum = 0;
        for (k, w) in weights.iter().enumerate() {
            if n >= k {
                sum += w * inputs[n - k];
            }
        }
        assert_eq!(sum, expected[n]);
        let out = fir::Filter::<Store<Fix, 3>>::apply(&param, &mut state, whole(*x));
        assert_eq!(out, whole(sum));
    }
}

fn kalman() -> (lqe::Param, lqe::State, Scale) {
    let s = bin(31, -16);
    let scales = lqe::Scales { factor: s, noise: s, square: s, gain: s };
    let param = lqe::Param::new(scales, fixed(s, 0.6), fixed(s, 0.5), fixed(s, 0.2), fixed(s, 0.4));
    let state = lqe::State::new(fixed(s, 0.0), fixed(s, 0.0));
    (param, state, s)
}

#[test]
fn lqe_fix() {
    let (param, mut state, s) = kalman();

    assert_eq!(
        lqe::Filter::apply(&param, &mut state, fixed(s, 0.123456)),
        Fix::new(s, 1_797)
    );
    assert_eq!(
        lqe::Filter::apply(&param, &mut state, fixed(s, 1.01246)),
        Fix::new(s, 19_718)
    );
    assert_eq!(
        lqe::Filter::apply(&param, &mut state, fixed(s, -5.198)),
        Fix::new(s, -91_888)
    );
    assert_eq!(state.p, Fix::new(s, 15_691));
}

/// The step in double precision: predict from the estimate, correct with the
/// measurement.
fn kalman_step(state: &mut (f64, f64), z: f64) -> f64 {
    let (f, h, q, r) = (0.6, 0.5, 0.2, 0.4);
    let x0 = f * state.0;
    let p0 = f * f * state.1 + q;
    let k = h * p0 / (h * h * p0 + r);
    state.1 = (1.0 - k * h) * p0;
    state.0 = x0 + k * (z - h * x0);
    state.0
}

#[test]
fn lqe_outputs_within_tolerance() {
    let (param, mut state, s) = kalman();
    let inputs = [0.123456, 1.01246, -5.198];
    let expected = [0.027435, 0.300921, -1.402235];
    let mut reference = (0.0, 0.0);
    for (x, y) in inputs.iter().zip(expected.iter()) {
        let out = lqe::Filter::apply(&param, &mut state, fixed(s, *x));
        assert!((kalman_step(&mut reference, *x) - y).abs() < 1e-6);
        assert!((decimal(out) - y).abs() < 1e-3);
        assert_eq!(state.x, out);
    }
}

#[test]
fn lqe_predicts_from_the_estimate() {
    // with f = h = r = 1 and q = 0 a state of (0, 0) has no gain: the
    // measurement is not believed and the estimate stays
    let s = bin(31, -16);
    let scales = lqe::Scales { factor: s, noise: s, square: s, gain: s };
    let param = lqe::Param::new(scales, fixed(s, 1.0), fixed(s, 1.0), fixed(s, 0.0), fixed(s, 1.0));
    let mut state = lqe::State::new(fixed(s, 0.0), fixed(s, 0.0));
    assert_eq!(lqe::Filter::apply(&param, &mut state, fixed(s, 5.0)), fixed(s, 0.0));
    // with a covariance of one the gain is a half
    let mut state = lqe::State::new(fixed(s, 2.0), fixed(s, 1.0));
    assert_eq!(lqe::Filter::apply(&param, &mut state, fixed(s, 5.0)), fixed(s, 3.5));
    assert_eq!(state.p, fixed(s, 0.5));
}

#[test]
fn lqe_param_squares() {
    let (param, _, s) = kalman();
    assert_eq!(param.f, fixed(s, 0.6));
    assert_eq!(param.h, fixed(s, 0.5));
    assert_eq!(param.q, fixed(s, 0.2));
    assert_eq!(param.r, fixed(s, 0.4));
    assert_eq!(param.h2, fixed(s, 0.25));
    assert_eq!(param.f2.bits, (39321i128 * 39321) >> 16);
    assert_eq!(param.gain, s);
}

fn pair(scale: Scale, low: f64, high: f64) -> (Fix, Fix) {
    (fixed(scale, low), fixed(scale, high))
}

#[test]
fn upscale_0to1_0to100() {
    let x = dec(4, -2);
    let y = dec(6, -2);
    let f = dec(6, -2);
    let p = scaler::Param::new(f, pair(x, 0.0, 1.0), pair(y, 0.0, 100.0));

    // on bounds
    assert_eq!(scaler::Scaler::apply(&p, &mut (), fixed(x, 0.0)), fixed(y, 0.0));
    assert_eq!(scaler::Scaler::apply(&p, &mut (), fixed(x, 1.0)), fixed(y, 100.0));

    // in range
    assert_eq!(scaler::Scaler::apply(&p, &mut (), fixed(x, 0.5)), fixed(y, 50.0));
    assert_eq!(
        scaler::Scaler::apply(&p, &mut (), Fix::new(x, 65)),
        fixed(y, 65.0)
    );

    // under range
    assert_eq!(scaler::Scaler::apply(&p, &mut (), fixed(x, -0.25)), fixed(y, -25.0));

    // over range
    assert_eq!(scaler::Scaler::apply(&p, &mut (), fixed(x, 1.25)), fixed(y, 125.0));
}

#[test]
fn upscale_n1to1_10to20() {
    let x = dec(4, -2);
    let y = dec(6, -2);
    let f = dec(6, -2);
    let p = scaler::Param::new(f, pair(x, -1.0, 1.0), pair(y, 10.0, 20.0));

    assert_eq!(p.factor, fixed(f, 5.0));
    assert_eq!(p.offset, fixed(y, 15.0));

    // on bounds
    assert_eq!(scaler::Scaler::apply(&p, &mut (), fixed(x, -1.0)), fixed(y, 10.0));
    assert_eq!(scaler::Scaler::apply(&p, &mut (), fixed(x, 1.0)), fixed(y, 20.0));

    // in range
    assert_eq!(scaler::Scaler::apply(&p, &mut (), fixed(x, 0.0)), fixed(y, 15.0));
    assert_eq!(scaler::Scaler::apply(&p, &mut (), fixed(x, -0.5)), fixed(y, 12.5));

    // under range
    assert_eq!(scaler::Scaler::apply(&p, &mut (), fixed(x, -1.25)), fixed(y, 8.75));

    // over range
    assert_eq!(scaler::Scaler::apply(&p, &mut (), fixed(x, 1.25)), fixed(y, 21.25));
}

#[test]
fn cast_fixed_mul() {
    let f32 = bin(32, -16);
    let a = fixed(f32, 123.456);
    let b = fixed(f32, 78.9);
    let c = (a * b).convert(f32);

    assert_eq!(c, fixed(f32, 9740.67715));
}

#[test]
fn cast_fixed_div() {
    let f32 = bin(32, -16);
    let f64 = bin(64, -32);
    let a = fixed(f32, 6789.12);
    let b = fixed(f32, 12.345);
    let c = (a.convert(f64) / b).convert(f32);

    assert_eq!(c, fixed(f32, 549.9496));
}

#[test]
fn fixed_mul() {
    let f32 = bin(32, -16);
    let a = fixed(f32, 123.456);
    let b = fixed(f32, 78.9);
    let c = (a * b).convert(f32);

    assert_eq!(c, fixed(f32, 9740.67715));
}

#[test]
fn fixed_div() {
    let f32 = bin(32, -16);
    let f64d = bin(64, -32);
    let a = fixed(f32, 6789.12);
    let b = fixed(f32, 12.345);
    let c = (a.convert(f64d) / b).convert(f32);

    assert_eq!(c, fixed(f32, 549.9496));
}

#[test]
fn chained_filters_equal_manual_sequence() {
    let a = bin(16, -8);
    let v = bin(16, -6);
    let smooth = ema::Param::from_alpha(fixed(a, 0.25));
    let (param, kalman_state, s) = kalman();
    let inputs = [0.5, 1.75, -2.25, 0.0, 3.0, -0.125];

    type Chain = (ema::Filter, lqe::Filter);
    let mut chained = (ema::State::new(fixed(v, 0.0)), kalman_state);
    let mut first = ema::State::new(fixed(v, 0.0));
    let mut second = lqe::State::new(fixed(s, 0.0), fixed(s, 0.0));
    for x in inputs {
        let mid = ema::Filter::apply(&smooth, &mut first, fixed(v, x));
        let manual = lqe::Filter::apply(&param, &mut second, mid);
        let out = Chain::apply(&(smooth, param), &mut chained, fixed(v, x));
        assert_eq!(out, manual);
        assert_eq!(chained.0.last_value, first.last_value);
        assert_eq!(chained.1.x, second.x);
        assert_eq!(chained.1.p, second.p);
    }
}
