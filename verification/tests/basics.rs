use rustlibfilt::arithmetic::{positive, Op};
use rustlibfilt::coeffstruct::OnePoleCoeffs;
use rustlibfilt::delayline::DelayLine;
use rustlibfilt::error::FilterError;
use rustlibfilt::filtertype::{
    BiquadFilterType, ButterFilterType, DcBlockFilterType, FilterType, HarmonicFilterType,
    NarrowFilterType, OnePoleFilterType, TwoZeroTwoPoleFilterType, ZavalishinFilterType,
};
use rustlibfilt::onepole::DesignOnePoleFilter;
use rustlibfilt::text::same_text;

fn num(bits: u64) -> f64 {
    f64::from_bits(bits)
}

fn b(x: f64) -> u64 {
    x.to_bits()
}

fn ieee(op: Op) -> u64 {
    let r = match op {
        Op::Nat(n) => n as f64,
        Op::Pi => std::f64::consts::PI,
        Op::Neg(a) => -num(a),
        Op::Sin(a) => num(a).sin(),
        Op::Cos(a) => num(a).cos(),
        Op::Tan(a) => num(a).tan(),
        Op::Exp(a) => num(a).exp(),
        Op::Sqrt(a) => num(a).sqrt(),
        Op::Add(a, b) => num(a) + num(b),
        Op::Sub(a, b) => num(a) - num(b),
        Op::Mul(a, b) => num(a) * num(b),
        Op::Div(a, b) => num(a) / num(b),
        Op::Pow(a, b) => num(a).powf(num(b)),
    };
    r.to_bits()
}

#[test]
fn delay_line_of_no_slots_is_invalid_configuration() {
    assert!(matches!(DelayLine::new(0), Err(FilterError::InvalidConfiguration)));
}

#[test]
fn delay_line_starts_at_zero() {
    let line = DelayLine::new(3).unwrap();
    assert_eq!(line.read(), 0);
}

#[test]
fn delay_line_read_does_not_move_the_cursor() {
    let mut line = DelayLine::new(2).unwrap();
    line.write_and_advance(&7);
    line.write_and_advance(&9);
    assert_eq!(line.read(), 7);
    assert_eq!(line.read(), 7);
}

#[test]
fn delay_line_gives_back_what_was_written_as_many_writes_ago_as_it_has_slots() {
    let mut line = DelayLine::new(3).unwrap();
    let mut seen = Vec::new();
    for v in 1..=8u64 {
        seen.push(line.read());
        line.write_and_advance(&v);
    }
    assert_eq!(seen, vec![0, 0, 0, 1, 2, 3, 4, 5]);
}

#[test]
fn delay_line_of_one_slot_gives_back_the_last_write() {
    let mut line = DelayLine::new(1).unwrap();
    line.write_and_advance(&b(2.5));
    assert_eq!(num(line.read()), 2.5);
    line.write_and_advance(&b(-1.0));
    assert_eq!(num(line.read()), -1.0);
}

#[test]
fn delay_line_clear_zeroes_the_slots_and_resets_the_cursor() {
    let mut line = DelayLine::new(3).unwrap();
    line.write_and_advance(&1);
    line.write_and_advance(&2);
    line.clear();
    let mut seen = Vec::new();
    for v in 5..=8u64 {
        seen.push(line.read());
        line.write_and_advance(&v);
    }
    assert_eq!(seen, vec![0, 0, 0, 5]);
}

#[test]
fn positive_is_the_comparison_with_zero() {
    for x in [1.0, 44100.0, f64::MIN_POSITIVE, 5e-324, f64::MAX, f64::INFINITY] {
        assert!(x > 0.0);
        assert!(positive(b(x)));
    }
    for x in [0.0, -0.0, -1.0, -5e-324, f64::NEG_INFINITY, f64::NAN, -f64::NAN] {
        assert!(!(x > 0.0));
        assert!(!positive(b(x)));
    }
}

#[test]
fn zero_is_the_pattern_of_positive_zero() {
    assert_eq!(rustlibfilt::arithmetic::ZERO, b(0.0));
    assert_eq!(ieee(Op::Nat(0)), rustlibfilt::arithmetic::ZERO);
}

#[test]
fn same_text_compares_characters() {
    assert!(same_text("", ""));
    assert!(same_text("notch", "notch"));
    assert!(!same_text("notch", "notc"));
    assert!(!same_text("lp", "hp"));
    assert!(!same_text("lp", "LP"));
    assert!(same_text("größe", "größe"));
    assert!(!same_text("große", "größe"));
}

#[test]
fn error_messages() {
    assert_eq!(FilterError::InvalidArgument.message(), "invalid argument");
    assert_eq!(FilterError::InvalidConfiguration.message(), "invalid configuration");
}

#[test]
fn topology_names() {
    let biquad = [
        ("lp", BiquadFilterType::Lp),
        ("hp", BiquadFilterType::Hp),
        ("bp0db", BiquadFilterType::Bp0dB),
        ("bpsg", BiquadFilterType::Bpsg),
        ("notch", BiquadFilterType::Notch),
        ("ap", BiquadFilterType::Ap),
        ("peq", BiquadFilterType::Peq),
        ("lps", BiquadFilterType::LpShelf),
        ("hps", BiquadFilterType::HpShelf),
    ];
    for (name, t) in biquad {
        assert_eq!(BiquadFilterType::from_name(name), Ok(t));
    }
    assert_eq!(BiquadFilterType::from_name("br"), Err(FilterError::InvalidArgument));

    assert_eq!(OnePoleFilterType::from_name("lp"), Ok(OnePoleFilterType::LowPass));
    assert_eq!(OnePoleFilterType::from_name("hp"), Ok(OnePoleFilterType::HighPass));
    assert_eq!(OnePoleFilterType::from_name("ap"), Err(FilterError::InvalidArgument));

    assert_eq!(DcBlockFilterType::from_name("dcj"), Ok(DcBlockFilterType::DcBlockJulius));
    assert_eq!(DcBlockFilterType::from_name(""), Err(FilterError::InvalidArgument));

    assert_eq!(NarrowFilterType::from_name("bp"), Ok(NarrowFilterType::Bp));
    assert_eq!(NarrowFilterType::from_name("notch"), Ok(NarrowFilterType::Notch));
    assert_eq!(NarrowFilterType::from_name("lp"), Err(FilterError::InvalidArgument));

    assert_eq!(TwoZeroTwoPoleFilterType::from_name("notch"), Ok(TwoZeroTwoPoleFilterType::Notch));
    assert_eq!(TwoZeroTwoPoleFilterType::from_name("bp"), Ok(TwoZeroTwoPoleFilterType::Bp));
    assert_eq!(TwoZeroTwoPoleFilterType::from_name("hp"), Err(FilterError::InvalidArgument));

    assert_eq!(ButterFilterType::from_name("lp"), Ok(ButterFilterType::Lp));
    assert_eq!(ButterFilterType::from_name("hp"), Ok(ButterFilterType::Hp));
    assert_eq!(ButterFilterType::from_name("bp"), Ok(ButterFilterType::Bp));
    assert_eq!(ButterFilterType::from_name("br"), Ok(ButterFilterType::Notch));
    assert_eq!(ButterFilterType::from_name("notch"), Err(FilterError::InvalidArgument));

    let harmonic = [
        ("combf", HarmonicFilterType::CombFIR),
        ("combfreev", HarmonicFilterType::CombFreeverbFIR),
        ("combi", HarmonicFilterType::CombIIR),
        ("lpcombi", HarmonicFilterType::LPFBCombFilter),
        ("allpass", HarmonicFilterType::Allpass),
        ("allpassfreev", HarmonicFilterType::AllpassFreeverb),
        ("lpallpass", HarmonicFilterType::LPFBAllpassFilter),
    ];
    for (name, t) in harmonic {
        assert_eq!(HarmonicFilterType::from_name(name), Ok(t));
    }
    assert_eq!(HarmonicFilterType::from_name("fir"), Err(FilterError::InvalidArgument));

    assert_eq!(ZavalishinFilterType::from_name("zdf"), Ok(ZavalishinFilterType::OnePoleZeroDelay));
    assert_eq!(ZavalishinFilterType::from_name("naive"), Ok(ZavalishinFilterType::NaiveOnePole));
    assert_eq!(ZavalishinFilterType::from_name("trap"), Ok(ZavalishinFilterType::TrapIntOnePole));
    assert_eq!(ZavalishinFilterType::from_name("svf"), Ok(ZavalishinFilterType::StateVariable));
    assert_eq!(ZavalishinFilterType::from_name("lp"), Err(FilterError::InvalidArgument));
}

#[test]
fn one_pole_design_step() {
    let mut d = DesignOnePoleFilter::new(
        FilterType::OnePoleType(OnePoleFilterType::HighPass),
        b(300.0),
        b(48000.0),
        &ieee,
    );
    let w = 2.0 * std::f64::consts::PI * 300.0 / 48000.0;
    let alpha = (-2.0 * w).exp();
    assert_eq!(num(d.alpha), alpha);
    assert_eq!(d.filt_coeffs, OnePoleCoeffs::new());
    d.coeffs(&ieee);
    let b0 = (1.0 + alpha) / 2.0;
    assert_eq!((num(d.filt_coeffs.b0), num(d.filt_coeffs.b1), num(d.filt_coeffs.a1)), (b0, -b0, alpha));
    let mut e =
        DesignOnePoleFilter::new(FilterType::NarrowType(NarrowFilterType::Bp), b(300.0), b(48000.0), &ieee);
    e.coeffs(&ieee);
    assert_eq!(e.filt_coeffs, OnePoleCoeffs::new());
}

#[test]
fn one_pole_coefficients_start_at_zero_and_take_what_is_set() {
    let mut c = OnePoleCoeffs::new();
    assert_eq!((c.b0, c.b1, c.a1), (0, 0, 0));
    c.set_coeffs((1, 2, 3));
    assert_eq!((c.b0, c.b1, c.a1), (1, 2, 3));
}
