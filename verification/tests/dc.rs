use rustlibfilt::arithmetic::Op;
use rustlibfilt::coeffstruct::OnePoleCoeffs;
use rustlibfilt::dc::{DcFilter, DesignDcFilter};
use rustlibfilt::error::FilterError;
use rustlibfilt::filtertype::{DcBlockFilterType, FilterType, OnePoleFilterType};

fn num(bits: u64) -> f64 {
    f64::from_bits(bits)
}

fn b(x: f64) -> u64 {
    x.to_bits()
}

fn ieee(op: Op) -> u64 {
    let r = match op {
        Op::Nat(n) => n as f64,
        Op::Pi => std::f64::consts::PI,
        Op::Neg(a) => -num(a),
        Op::Sin(a) => num(a).sin(),
        Op::Cos(a) => num(a).cos(),
        Op::Tan(a) => num(a).tan(),
        Op::Exp(a) => num(a).exp(),
        Op::Sqrt(a) => num(a).sqrt(),
        Op::Add(a, b) => num(a) + num(b),
        Op::Sub(a, b) => num(a) - num(b),
        Op::Mul(a, b) => num(a) * num(b),
        Op::Div(a, b) => num(a) / num(b),
        Op::Pow(a, b) => num(a).powf(num(b)),
    };
    r.to_bits()
}

#[test]
fn dc_block_coefficients() {
    let mut f = DcFilter::new(b(44100.0)).unwrap();
    let c = f.design_filter("dcj", b(20.0), &ieee).unwrap();
    let w = 2.0 * std::f64::consts::PI * 20.0 / 44100.0;
    assert_eq!((num(c.0), num(c.1)), (1.0, 1.0 - w));
}

#[test]
fn dc_block_unknown_mode_is_invalid_argument() {
    let mut f = DcFilter::new(b(44100.0)).unwrap();
    assert_eq!(f.design_filter("dc", b(20.0), &ieee), Err(FilterError::InvalidArgument));
}

#[test]
fn dc_block_sampling_rate_must_be_positive() {
    assert!(matches!(DcFilter::new(b(-44100.0)), Err(FilterError::InvalidConfiguration)));
    assert!(matches!(DcFilter::new(b(0.0)), Err(FilterError::InvalidConfiguration)));
}

#[test]
fn dc_block_recurrence_on_exact_values() {
    let mut f = DcFilter::new(b(44100.0)).unwrap();
    let c = (b(1.0), b(0.5));
    // y0 = 4 - 0 + 0
    assert_eq!(num(f.filt_sample(b(4.0), c, &ieee)), 4.0);
    // y1 = 4 - 4 + 0.5 * 4
    assert_eq!(num(f.filt_sample(b(4.0), c, &ieee)), 2.0);
    // y2 = 6 - 4 + 0.5 * 2
    assert_eq!(num(f.filt_sample(b(6.0), c, &ieee)), 3.0);
    // with another b0: y3 = 2 * 1 - 6 + 0.5 * 3
    assert_eq!(num(f.filt_sample(b(1.0), (b(2.0), b(0.5)), &ieee)), -2.5);
}

#[test]
fn dc_block_removes_a_constant() {
    let mut f = DcFilter::new(b(44100.0)).unwrap();
    let c = f.design_filter("dcj", b(20.0), &ieee).unwrap();
    let mut y = 1.0;
    for _ in 0..50000 {
        y = num(f.filt_sample(b(0.8), c, &ieee));
    }
    assert!(y.abs() < 1e-9);
}

#[test]
fn dc_block_frame_is_sample_by_sample() {
    let c = (b(1.0), b(0.995));
    let input: Vec<u64> = (0..100).map(|i| b(((i as f64) * 0.3).cos() + 0.5)).collect();
    let mut a = DcFilter::new(b(44100.0)).unwrap();
    let mut z = DcFilter::new(b(44100.0)).unwrap();
    let whole = a.filt_frame(input.clone(), c, &ieee);
    let single: Vec<u64> = input.iter().map(|&x| z.filt_sample(x, c, &ieee)).collect();
    assert_eq!(whole, single);
}

#[test]
fn dc_block_empty_frame_gives_nothing_and_keeps_state() {
    let c = (b(1.0), b(0.5));
    let mut a = DcFilter::new(b(44100.0)).unwrap();
    let mut z = DcFilter::new(b(44100.0)).unwrap();
    a.filt_sample(b(1.0), c, &ieee);
    z.filt_sample(b(1.0), c, &ieee);
    assert!(a.filt_frame(Vec::new(), c, &ieee).is_empty());
    assert_eq!(a.filt_sample(b(3.0), c, &ieee), z.filt_sample(b(3.0), c, &ieee));
}

#[test]
fn dc_block_clear_gives_a_fresh_filter() {
    let c = (b(1.0), b(0.5));
    let input: Vec<u64> = (0..33).map(|i| b((i as f64) * 0.25 - 3.0)).collect();
    let mut used = DcFilter::new(b(44100.0)).unwrap();
    used.filt_frame(input.clone(), c, &ieee);
    used.clear_delayed_samples_cache();
    let mut fresh = DcFilter::new(b(44100.0)).unwrap();
    assert_eq!(used.filt_frame(input.clone(), c, &ieee), fresh.filt_frame(input, c, &ieee));
}

#[test]
fn dc_block_design_step() {
    let mut d = DesignDcFilter::new(
        FilterType::DcBlockType(DcBlockFilterType::DcBlockJulius),
        b(30.0),
        b(48000.0),
        &ieee,
    );
    assert_eq!(d.filt_coeffs, OnePoleCoeffs::new());
    d.coeffs(&ieee);
    let w = 2.0 * std::f64::consts::PI * 30.0 / 48000.0;
    assert_eq!((num(d.filt_coeffs.b0), d.filt_coeffs.b1, num(d.filt_coeffs.a1)), (1.0, 0, 1.0 - w));
    let mut e = DesignDcFilter::new(
        FilterType::OnePoleType(OnePoleFilterType::HighPass),
        b(30.0),
        b(48000.0),
        &ieee,
    );
    e.coeffs(&ieee);
    assert_eq!(e.filt_coeffs, OnePoleCoeffs::new());
}
