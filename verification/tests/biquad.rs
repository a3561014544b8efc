use rustlibfilt::arithmetic::Op;
use rustlibfilt::biquadeq::{Biquad, DesignBiquadFilter};
use rustlibfilt::coeffstruct::BiquadCoeffs;
use rustlibfilt::error::FilterError;
use rustlibfilt::filtertype::{BiquadFilterType, FilterType, OnePoleFilterType};

fn num(bits: u64) -> f64 {
    f64::from_bits(bits)
}

fn b(x: f64) -> u64 {
    x.to_bits()
}

fn ieee(op: Op) -> u64 {
    let r = match op {
        Op::Nat(n) => n as f64,
        Op::Pi => std::f64::consts::PI,
        Op::Neg(a) => -num(a),
        Op::Sin(a) => num(a).sin(),
        Op::Cos(a) => num(a).cos(),
        Op::Tan(a) => num(a).tan(),
        Op::Exp(a) => num(a).exp(),
        Op::Sqrt(a) => num(a).sqrt(),
        Op::Add(a, b) => num(a) + num(b),
        Op::Sub(a, b) => num(a) - num(b),
        Op::Mul(a, b) => num(a) * num(b),
        Op::Div(a, b) => num(a) / num(b),
        Op::Pow(a, b) => num(a).powf(num(b)),
    };
    r.to_bits()
}

type Six = (f64, f64, f64, f64, f64, f64);

fn bits6(c: Six) -> (u64, u64, u64, u64, u64, u64) {
    (b(c.0), b(c.1), b(c.2), b(c.3), b(c.4), b(c.5))
}

fn nums6(c: (u64, u64, u64, u64, u64, u64)) -> Six {
    (num(c.0), num(c.1), num(c.2), num(c.3), num(c.4), num(c.5))
}

const FS: f64 = 48000.0;
const FC: f64 = 1200.0;
const Q: f64 = 0.707;

fn angles() -> (f64, f64, f64) {
    let w = 2.0 * std::f64::consts::PI * FC / FS;
    (w.sin(), w.cos(), w.sin() / (2.0 * Q))
}

fn design(mode: &str, gain: Option<f64>) -> Six {
    let f = Biquad::new(b(FS)).unwrap();
    nums6(f.design_filter(mode, b(FC), b(Q), gain.map(b), &ieee).unwrap())
}

#[test]
fn biquad_low_pass_coefficients() {
    let (_, cos, alpha) = angles();
    let c = 1.0 - cos;
    assert_eq!(design("lp", None), (c / 2.0, c, c / 2.0, 1.0 + alpha, -2.0 * cos, 1.0 - alpha));
}

#[test]
fn biquad_high_pass_coefficients() {
    let (_, cos, alpha) = angles();
    let c = 1.0 + cos;
    assert_eq!(design("hp", None), (c / 2.0, -c, c / 2.0, 1.0 + alpha, -2.0 * cos, 1.0 - alpha));
}

#[test]
fn biquad_band_pass_zero_db_coefficients() {
    let (_, cos, alpha) = angles();
    assert_eq!(design("bp0db", None), (alpha, 0.0, -alpha, 1.0 + alpha, -2.0 * cos, 1.0 - alpha));
}

#[test]
fn biquad_band_pass_skirt_gain_coefficients() {
    let (sin, cos, alpha) = angles();
    assert_eq!(
        design("bpsg", None),
        (sin / 2.0, 0.0, -(sin / 2.0), 1.0 + alpha, -2.0 * cos, 1.0 - alpha)
    );
}

#[test]
fn biquad_notch_coefficients() {
    let (_, cos, alpha) = angles();
    assert_eq!(design("notch", None), (1.0, -2.0 * cos, 1.0, 1.0 + alpha, -2.0 * cos, 1.0 - alpha));
}

#[test]
fn biquad_all_pass_coefficients() {
    let (_, cos, alpha) = angles();
    assert_eq!(
        design("ap", Some(3.0)),
        (1.0 - alpha, -2.0 * cos, 1.0 + alpha, 1.0 + alpha, -2.0 * cos, 1.0 - alpha)
    );
}

#[test]
fn biquad_all_pass_is_symmetric() {
    for (fc, fs, q) in [(100.0, 44100.0, 0.5), (1000.0, 48000.0, 0.707), (7000.0, 96000.0, 4.0)] {
        let f = Biquad::new(b(fs)).unwrap();
        let c = f.design_filter("ap", b(fc), b(q), None, &ieee).unwrap();
        assert_eq!(c.0, c.5);
        assert_eq!(c.2, c.3);
        assert_eq!(c.1, c.4);
    }
}

#[test]
fn biquad_peaking_coefficients() {
    let (_, cos, alpha) = angles();
    let a = 10.0f64.powf(6.0 / 40.0);
    assert_eq!(
        design("peq", Some(6.0)),
        (
            1.0 + alpha * a,
            -2.0 * cos,
            1.0 - alpha * a,
            1.0 + alpha / a,
            -2.0 * cos,
            1.0 - alpha / a
        )
    );
}

#[test]
fn biquad_low_shelf_coefficients() {
    let (sin, cos, _) = angles();
    let a = 10.0f64.powf(-4.5 / 40.0);
    let beta = a.sqrt() / Q;
    assert_eq!(
        design("lps", Some(-4.5)),
        (
            a * ((a + 1.0) - (a - 1.0) * cos + beta * sin),
            2.0 * a * ((a - 1.0) - (a + 1.0) * cos),
            a * ((a + 1.0) - (a - 1.0) * cos - beta * sin),
            (a + 1.0) + (a - 1.0) * cos + beta * sin,
            -2.0 * ((a - 1.0) + (a + 1.0) * cos),
            (a + 1.0) + (a - 1.0) * cos - beta * sin
        )
    );
}

#[test]
fn biquad_high_shelf_coefficients() {
    let (sin, cos, _) = angles();
    let a = 10.0f64.powf(9.0 / 40.0);
    let beta = a.sqrt() / Q;
    assert_eq!(
        design("hps", Some(9.0)),
        (
            a * ((a + 1.0) + (a - 1.0) * cos + beta * sin),
            -2.0 * a * ((a - 1.0) + (a + 1.0) * cos),
            a * ((a + 1.0) + (a - 1.0) * cos - beta * sin),
            (a + 1.0) - (a - 1.0) * cos + beta * sin,
            2.0 * ((a - 1.0) - (a + 1.0) * cos),
            (a + 1.0) - (a - 1.0) * cos - beta * sin
        )
    );
}

#[test]
fn biquad_gain_topologies_without_gain_give_zeros() {
    for mode in ["peq", "lps", "hps"] {
        let f = Biquad::new(b(FS)).unwrap();
        let c = f.design_filter(mode, b(FC), b(Q), None, &ieee).unwrap();
        assert_eq!(c, (0, 0, 0, 0, 0, 0));
    }
}

#[test]
fn biquad_unknown_mode_is_invalid_argument() {
    let f = Biquad::new(b(FS)).unwrap();
    assert_eq!(f.design_filter("lowpass", b(FC), b(Q), None, &ieee), Err(FilterError::InvalidArgument));
    assert_eq!(f.design_filter("", b(FC), b(Q), None, &ieee), Err(FilterError::InvalidArgument));
    assert_eq!(f.design_filter("LP", b(FC), b(Q), None, &ieee), Err(FilterError::InvalidArgument));
}

#[test]
fn biquad_sampling_rate_must_be_positive() {
    assert!(matches!(Biquad::new(b(0.0)), Err(FilterError::InvalidConfiguration)));
    assert!(matches!(Biquad::new(b(-0.0)), Err(FilterError::InvalidConfiguration)));
    assert!(matches!(Biquad::new(b(-1.0)), Err(FilterError::InvalidConfiguration)));
    assert!(matches!(Biquad::new(b(f64::NAN)), Err(FilterError::InvalidConfiguration)));
    assert!(Biquad::new(b(f64::MIN_POSITIVE)).is_ok());
    assert!(Biquad::new(b(f64::INFINITY)).is_ok());
}

#[test]
fn biquad_design_is_repeatable() {
    for mode in ["lp", "hp", "bp0db", "bpsg", "notch", "ap", "peq", "lps", "hps"] {
        let f = Biquad::new(b(44100.0)).unwrap();
        let first = f.design_filter(mode, b(440.0), b(1.3), Some(b(2.5)), &ieee);
        let second = f.design_filter(mode, b(440.0), b(1.3), Some(b(2.5)), &ieee);
        assert_eq!(first, second);
    }
}

#[test]
fn biquad_recurrence_on_exact_values() {
    let mut f = Biquad::new(b(FS)).unwrap();
    let c = bits6((1.0, 0.5, 0.25, 2.0, -0.5, 0.25));
    // y0 = (1 * 4) / 2
    assert_eq!(num(f.filt_sample(b(4.0), c, &ieee)), 2.0);
    // y1 = (1 * 2 + 0.5 * 4 + 0.5 * 2) / 2
    assert_eq!(num(f.filt_sample(b(2.0), c, &ieee)), 2.5);
    // y2 = (1 * 0 + 0.5 * 2 + 0.25 * 4 + 0.5 * 2.5 - 0.25 * 2) / 2
    assert_eq!(num(f.filt_sample(b(0.0), c, &ieee)), 1.375);
    // y3 = (0.25 * 2 + 0.5 * 1.375 - 0.25 * 2.5) / 2
    assert_eq!(num(f.filt_sample(b(0.0), c, &ieee)), 0.28125);
}

#[test]
fn biquad_frame_is_sample_by_sample() {
    let f = Biquad::new(b(FS)).unwrap();
    let c = f.design_filter("lp", b(FC), b(Q), None, &ieee).unwrap();
    let input: Vec<u64> = (0..200).map(|i| b(((i as f64) * 0.21).sin())).collect();
    let mut by_frame = Biquad::new(b(FS)).unwrap();
    let mut by_sample = Biquad::new(b(FS)).unwrap();
    let whole = by_frame.filt_frame(input.clone(), c, &ieee);
    let single: Vec<u64> = input.iter().map(|&x| by_sample.filt_sample(x, c, &ieee)).collect();
    assert_eq!(whole, single);
    assert_eq!(whole.len(), 200);
}

#[test]
fn biquad_empty_frame_gives_nothing_and_keeps_state() {
    let c = bits6((1.0, 0.5, 0.25, 2.0, -0.5, 0.25));
    let mut a = Biquad::new(b(FS)).unwrap();
    let mut z = Biquad::new(b(FS)).unwrap();
    a.filt_sample(b(1.0), c, &ieee);
    z.filt_sample(b(1.0), c, &ieee);
    assert!(a.filt_frame(Vec::new(), c, &ieee).is_empty());
    assert_eq!(a.filt_sample(b(3.0), c, &ieee), z.filt_sample(b(3.0), c, &ieee));
}

#[test]
fn biquad_clear_gives_a_fresh_filter() {
    let c = bits6((1.0, 0.5, 0.25, 2.0, -0.5, 0.25));
    let input: Vec<u64> = (0..40).map(|i| b((i as f64) * 0.5 - 3.0)).collect();
    let mut used = Biquad::new(b(FS)).unwrap();
    used.filt_frame(input.clone(), c, &ieee);
    used.clear_delayed_samples_cache();
    let mut fresh = Biquad::new(b(FS)).unwrap();
    assert_eq!(used.filt_frame(input.clone(), c, &ieee), fresh.filt_frame(input, c, &ieee));
}

#[test]
fn biquad_design_step_leaves_other_families_alone() {
    let mut d = DesignBiquadFilter::new(
        FilterType::OnePoleType(OnePoleFilterType::LowPass),
        b(FC),
        b(FS),
        b(Q),
        None,
        &ieee,
    );
    d.coeffs(&ieee);
    assert_eq!(d.filt_coeffs, BiquadCoeffs::new());
    let mut e = DesignBiquadFilter::new(
        FilterType::BiquadType(BiquadFilterType::Notch),
        b(FC),
        b(FS),
        b(Q),
        None,
        &ieee,
    );
    e.coeffs(&ieee);
    assert_eq!(num(e.filt_coeffs.b0), 1.0);
    assert_eq!(e.a, None);
    assert_eq!(e.beta, None);
}

#[test]
fn coefficient_sets_start_at_zero_and_take_what_is_set() {
    let mut c = BiquadCoeffs::new();
    assert_eq!((c.b0, c.b1, c.b2, c.a0, c.a1, c.a2), (0, 0, 0, 0, 0, 0));
    c.set_coeffs((1, 2, 3, 4, 5, 6));
    assert_eq!((c.b0, c.b1, c.b2, c.a0, c.a1, c.a2), (1, 2, 3, 4, 5, 6));
}
