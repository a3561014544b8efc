use rustlibfilt::arithmetic::Op;
use rustlibfilt::error::FilterError;
use rustlibfilt::zavalishin::{one_pole_integrator_of, state_variable_of, Zavalishin};

fn num(bits: u64) -> f64 {
    f64::from_bits(bits)
}

fn b(x: f64) -> u64 {
    x.to_bits()
}

fn ieee(op: Op) -> u64 {
    let r = match op {
        Op::Nat(n) => n as f64,
        Op::Pi => std::f64::consts::PI,
        Op::Neg(a) => -num(a),
        Op::Sin(a) => num(a).sin(),
        Op::Cos(a) => num(a).cos(),
        Op::Tan(a) => num(a).tan(),
        Op::Exp(a) => num(a).exp(),
        Op::Sqrt(a) => num(a).sqrt(),
        Op::Add(a, b) => num(a) + num(b),
        Op::Sub(a, b) => num(a) - num(b),
        Op::Mul(a, b) => num(a) * num(b),
        Op::Div(a, b) => num(a) / num(b),
        Op::Pow(a, b) => num(a).powf(num(b)),
    };
    r.to_bits()
}

const FS: f64 = 48000.0;

type Five = (f64, f64, f64, f64, f64);

fn nums5(c: (u64, u64, u64, u64, u64)) -> Five {
    (num(c.0), num(c.1), num(c.2), num(c.3), num(c.4))
}

fn warped(w: f64, ts: f64) -> f64 {
    (2.0 / ts) * (w * ts / 2.0).tan()
}

fn integrator(x: f64, g: f64, z: f64) -> (f64, f64, f64) {
    let v = (x - z) * g;
    let lp = v + z;
    (lp, x - lp, lp + v)
}

fn input() -> Vec<f64> {
    (0..40).map(|i| ((i as f64) * 0.41).cos()).collect()
}

#[test]
fn zavalishin_zero_delay_one_pole() {
    let mut f = Zavalishin::new(b(FS)).unwrap();
    f.design_filter("zdf", b(1000.0), None, &ieee).unwrap();
    let ts = 1.0 / FS;
    let g = warped(2.0 * std::f64::consts::PI * 1000.0, ts) * ts / 2.0;
    let mut z = 0.0;
    for x in input() {
        let (lp, hp, next) = integrator(x, g, z);
        assert_eq!(nums5(f.filt_sample(b(x), &ieee)), (lp, hp, lp - hp, 0.0, 0.0));
        z = next;
    }
}

#[test]
fn zavalishin_naive_one_pole_feeds_back_the_low_pass_and_halves_the_high_pass() {
    let mut f = Zavalishin::new(b(FS)).unwrap();
    f.design_filter("naive", b(1000.0), None, &ieee).unwrap();
    let ts = 1.0 / FS;
    let g = warped(2.0 * std::f64::consts::PI * 1000.0, ts) * ts;
    let mut z = 0.0;
    for x in input() {
        let (lp, hp, _) = integrator(x, g, z);
        assert_eq!(nums5(f.filt_sample(b(x), &ieee)), (lp, hp / 2.0, 0.0, 0.0, 0.0));
        z = lp;
    }
}

#[test]
fn zavalishin_trapezoidal_one_pole() {
    let mut f = Zavalishin::new(b(FS)).unwrap();
    f.design_filter("trap", b(1000.0), Some(b(3.0)), &ieee).unwrap();
    let ts = 1.0 / FS;
    let g = warped(2.0 * std::f64::consts::PI * 1000.0, ts) * ts / 2.0;
    let mut z = 0.0;
    for x in input() {
        let (lp, hp, next) = integrator(x, g, z);
        assert_eq!(nums5(f.filt_sample(b(x), &ieee)), (lp, hp, 0.0, 0.0, 0.0));
        z = next;
    }
}

#[test]
fn zavalishin_state_variable() {
    let mut f = Zavalishin::new(b(FS)).unwrap();
    f.design_filter("svf", b(1000.0), Some(b(500.0)), &ieee).unwrap();
    let twopi = 2.0 * std::f64::consts::PI;
    let ts = 1.0 / FS;
    let wc = twopi * 1000.0;
    let w = twopi * (1000.0 + 500.0);
    let w_sqrt = (wc * w).sqrt();
    let r = ((wc + w) / 2.0) / w_sqrt;
    let g = warped(w_sqrt, ts) * ts / 2.0;
    let g1 = 1.0 + (2.0 * r * g) + g.powf(2.0);
    let (mut z, mut s) = (0.0, 0.0);
    for x in input() {
        let hp = (x - 2.0 * r * z - g * z - s) / g1;
        let bp = g * hp + z;
        let lp = g * bp + s;
        let br = x - 2.0 * r * bp;
        assert_eq!(nums5(f.filt_sample(b(x), &ieee)), (lp, hp, 0.0, bp, br));
        z = g * hp + bp;
        s = g * bp + lp;
    }
}

#[test]
fn zavalishin_before_any_design_every_output_is_zero() {
    let mut f = Zavalishin::new(b(FS)).unwrap();
    for x in [1.0, -2.0, 1e9] {
        assert_eq!(f.filt_sample(b(x), &ieee), (0, 0, 0, 0, 0));
    }
}

#[test]
fn zavalishin_state_variable_without_spread_is_invalid_argument() {
    let mut f = Zavalishin::new(b(FS)).unwrap();
    assert_eq!(f.design_filter("svf", b(1000.0), None, &ieee), Err(FilterError::InvalidArgument));
    // nothing was designed
    assert_eq!(f.filt_sample(b(1.0), &ieee), (0, 0, 0, 0, 0));
}

#[test]
fn zavalishin_unknown_mode_is_invalid_argument_and_keeps_the_design() {
    let mut f = Zavalishin::new(b(FS)).unwrap();
    let mut g = Zavalishin::new(b(FS)).unwrap();
    f.design_filter("zdf", b(1000.0), None, &ieee).unwrap();
    g.design_filter("zdf", b(1000.0), None, &ieee).unwrap();
    assert_eq!(f.design_filter("moog", b(500.0), None, &ieee), Err(FilterError::InvalidArgument));
    for x in input() {
        assert_eq!(f.filt_sample(b(x), &ieee), g.filt_sample(b(x), &ieee));
    }
}

#[test]
fn zavalishin_sampling_rate_must_be_positive() {
    assert!(matches!(Zavalishin::new(b(0.0)), Err(FilterError::InvalidConfiguration)));
    assert!(matches!(Zavalishin::new(b(f64::NEG_INFINITY)), Err(FilterError::InvalidConfiguration)));
}

#[test]
fn zavalishin_low_and_high_rebuild_the_input_on_exact_values() {
    // v = (1 - 0) * 0.5, lp = 0.5, hp = 0.5
    let (lp, hp, z) = one_pole_integrator_of(&ieee, b(1.0), b(0.5), b(0.0));
    assert_eq!((num(lp), num(hp), num(z)), (0.5, 0.5, 1.0));
    assert_eq!(num(lp) + num(hp), 1.0);
    // v = (3 - 1) * 0.25, lp = 1.5, hp = 1.5, next state 2
    let (lp, hp, z) = one_pole_integrator_of(&ieee, b(3.0), b(0.25), b(1.0));
    assert_eq!((num(lp), num(hp), num(z)), (1.5, 1.5, 2.0));
    assert_eq!(num(lp) + num(hp), 3.0);
}

#[test]
fn zavalishin_high_pass_is_the_input_less_the_low_pass() {
    let mut f = Zavalishin::new(b(FS)).unwrap();
    f.design_filter("zdf", b(3000.0), None, &ieee).unwrap();
    for x in input() {
        let (lp, hp, _, _, _) = nums5(f.filt_sample(b(x), &ieee));
        assert_eq!(hp, x - lp);
        assert!((lp + hp - x).abs() <= 1e-15);
    }
}

#[test]
fn zavalishin_state_variable_on_exact_values() {
    // g = 0.5, g1 = 2, r = 1, z = 2, s = 1, x = 8:
    // hp = (8 - 4 - 1 - 1) / 2 = 1, bp = 0.5 + 2, lp = 1.25 + 1, br = 8 - 5
    let (lp, hp, bp, br) = state_variable_of(&ieee, b(8.0), (b(0.5), b(2.0), b(1.0)), b(2.0), b(1.0));
    assert_eq!((num(lp), num(hp), num(bp), num(br)), (2.25, 1.0, 2.5, 3.0));
}

#[test]
fn zavalishin_clear_puts_the_state_back_to_zero() {
    let mut used = Zavalishin::new(b(FS)).unwrap();
    used.design_filter("svf", b(800.0), Some(b(200.0)), &ieee).unwrap();
    for x in input() {
        used.filt_sample(b(x), &ieee);
    }
    used.clear_delayed_samples_cache();
    let mut fresh = Zavalishin::new(b(FS)).unwrap();
    fresh.design_filter("svf", b(800.0), Some(b(200.0)), &ieee).unwrap();
    for x in input() {
        assert_eq!(used.filt_sample(b(x), &ieee), fresh.filt_sample(b(x), &ieee));
    }
}

#[test]
fn zavalishin_design_is_repeatable_and_keeps_the_state() {
    let mut a = Zavalishin::new(b(FS)).unwrap();
    let mut z = Zavalishin::new(b(FS)).unwrap();
    a.design_filter("trap", b(800.0), None, &ieee).unwrap();
    z.design_filter("trap", b(800.0), None, &ieee).unwrap();
    a.filt_sample(b(1.0), &ieee);
    z.filt_sample(b(1.0), &ieee);
    a.design_filter("trap", b(800.0), None, &ieee).unwrap();
    assert_eq!(a.filt_sample(b(0.5), &ieee), z.filt_sample(b(0.5), &ieee));
}
