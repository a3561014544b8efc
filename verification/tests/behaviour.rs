use rustlibfilt::arithmetic::Op;
use rustlibfilt::biquadeq::Biquad;
use rustlibfilt::butter::Butter;
use rustlibfilt::harmonic::Harmonic;
use rustlibfilt::zavalishin::Zavalishin;

fn num(bits: u64) -> f64 {
    f64::from_bits(bits)
}

fn b(x: f64) -> u64 {
    x.to_bits()
}

fn ieee(op: Op) -> u64 {
    let r = match op {
        Op::Nat(n) => n as f64,
        Op::Pi => std::f64::consts::PI,
        Op::Neg(a) => -num(a),
        Op::Sin(a) => num(a).sin(),
        Op::Cos(a) => num(a).cos(),
        Op::Tan(a) => num(a).tan(),
        Op::Exp(a) => num(a).exp(),
        Op::Sqrt(a) => num(a).sqrt(),
        Op::Add(a, b) => num(a) + num(b),
        Op::Sub(a, b) => num(a) - num(b),
        Op::Mul(a, b) => num(a) * num(b),
        Op::Div(a, b) => num(a) / num(b),
        Op::Pow(a, b) => num(a).powf(num(b)),
    };
    r.to_bits()
}

const FS: f64 = 48000.0;
const FC: f64 = 1500.0;

/// The largest output in the last 2000 of 24000 samples of a sinusoid.
fn amplitude(mode: &str, q: f64, gain: Option<f64>, frequency: f64) -> f64 {
    let mut f = Biquad::new(b(FS)).unwrap();
    let c = f.design_filter(mode, b(FC), b(q), gain.map(b), &ieee).unwrap();
    let mut peak: f64 = 0.0;
    for n in 0..24000 {
        let x = (2.0 * std::f64::consts::PI * frequency * (n as f64) / FS).sin();
        let y = num(f.filt_sample(b(x), c, &ieee));
        if n >= 22000 {
            peak = peak.max(y.abs());
        }
    }
    peak
}

/// The output after 24000 samples of the constant one.
fn settled(mode: &str, q: f64, gain: Option<f64>) -> f64 {
    let mut f = Biquad::new(b(FS)).unwrap();
    let c = f.design_filter(mode, b(FC), b(q), gain.map(b), &ieee).unwrap();
    let mut y = 0.0;
    for _ in 0..24000 {
        y = num(f.filt_sample(b(1.0), c, &ieee));
    }
    y
}

/// The size of the output after 24000 samples that alternate between one and minus one.
fn at_half_the_sampling_rate(mode: &str, q: f64, gain: Option<f64>) -> f64 {
    let mut f = Biquad::new(b(FS)).unwrap();
    let c = f.design_filter(mode, b(FC), b(q), gain.map(b), &ieee).unwrap();
    let mut y: f64 = 0.0;
    for n in 0..24000 {
        let x = if n % 2 == 0 { 1.0 } else { -1.0 };
        y = num(f.filt_sample(b(x), c, &ieee));
    }
    y.abs()
}

fn close(a: f64, z: f64) -> bool {
    (a - z).abs() < 1e-6
}

#[test]
fn biquad_low_pass_keeps_a_constant_and_removes_half_the_sampling_rate() {
    assert!(close(settled("lp", 0.707, None), 1.0));
    assert!(close(at_half_the_sampling_rate("lp", 0.707, None), 0.0));
}

#[test]
fn biquad_high_pass_removes_a_constant_and_keeps_half_the_sampling_rate() {
    assert!(close(settled("hp", 0.707, None), 0.0));
    assert!(close(at_half_the_sampling_rate("hp", 0.707, None), 1.0));
}

#[test]
fn biquad_band_pass_with_zero_db_peak_has_gain_one_at_its_centre() {
    assert!(close(amplitude("bp0db", 2.0, None, FC), 1.0));
    assert!(close(settled("bp0db", 2.0, None), 0.0));
}

#[test]
fn biquad_band_pass_with_constant_skirt_has_gain_q_at_its_centre() {
    assert!(close(amplitude("bpsg", 2.0, None, FC), 2.0));
    assert!(close(amplitude("bpsg", 4.0, None, FC), 4.0));
}

#[test]
fn biquad_notch_removes_its_centre_and_keeps_a_constant() {
    assert!(close(amplitude("notch", 2.0, None, FC), 0.0));
    assert!(close(settled("notch", 2.0, None), 1.0));
}

/// The amplitude of the output for a sinusoid, from its mean square over the
/// last tenth of a second of half a second.
fn amplitude_by_power(mode: &str, q: f64, frequency: f64) -> f64 {
    let mut f = Biquad::new(b(FS)).unwrap();
    let c = f.design_filter(mode, b(FC), b(q), None, &ieee).unwrap();
    let mut power = 0.0;
    for n in 0..24000 {
        let x = (2.0 * std::f64::consts::PI * frequency * (n as f64) / FS).sin();
        let y = num(f.filt_sample(b(x), c, &ieee));
        if n >= 19200 {
            power += y * y;
        }
    }
    (2.0 * power / 4800.0).sqrt()
}

#[test]
fn biquad_all_pass_keeps_every_amplitude() {
    for frequency in [300.0, FC, 6000.0] {
        assert!(close(amplitude_by_power("ap", 1.0, frequency), 1.0));
    }
    assert!(close(settled("ap", 1.0, None), 1.0));
}

#[test]
fn biquad_peaking_lifts_its_centre_by_the_gain() {
    let lift = 10.0f64.powf(6.0 / 20.0);
    assert!(close(amplitude("peq", 2.0, Some(6.0), FC), lift));
    assert!(close(settled("peq", 2.0, Some(6.0)), 1.0));
    assert!(close(at_half_the_sampling_rate("peq", 2.0, Some(6.0)), 1.0));
}

#[test]
fn biquad_low_shelf_lifts_a_constant_by_the_gain() {
    let lift = 10.0f64.powf(6.0 / 20.0);
    assert!(close(settled("lps", 0.707, Some(6.0)), lift));
    assert!(close(at_half_the_sampling_rate("lps", 0.707, Some(6.0)), 1.0));
}

#[test]
fn biquad_high_shelf_lifts_half_the_sampling_rate_by_the_gain() {
    let lift = 10.0f64.powf(6.0 / 20.0);
    assert!(close(at_half_the_sampling_rate("hps", 0.707, Some(6.0)), lift));
    assert!(close(settled("hps", 0.707, Some(6.0)), 1.0));
}

fn butter_settled(mode: &str) -> f64 {
    let mut f = Butter::new(b(FS), Some(2)).unwrap();
    let c = f.design_filter(mode, b(FC), Some(b(400.0)), &ieee).unwrap();
    let mut y = 0.0;
    for _ in 0..24000 {
        y = num(f.filt_sample(b(1.0), c.clone(), &ieee));
    }
    y
}

#[test]
fn butter_low_pass_keeps_a_constant() {
    assert!(close(butter_settled("lp"), 1.0));
}

#[test]
fn butter_high_pass_removes_a_constant() {
    assert!(close(butter_settled("hp"), 0.0));
}

#[test]
fn butter_band_pass_removes_a_constant() {
    assert!(close(butter_settled("bp"), 0.0));
}

#[test]
fn butter_band_reject_keeps_a_constant() {
    assert!(close(butter_settled("br"), 1.0));
}

#[test]
fn butter_low_pass_has_half_the_power_at_its_corner() {
    let mut f = Butter::new(b(FS), None).unwrap();
    let c = f.design_filter("lp", b(FC), None, &ieee).unwrap();
    let mut peak: f64 = 0.0;
    for n in 0..24000 {
        let x = (2.0 * std::f64::consts::PI * FC * (n as f64) / FS).sin();
        let y = num(f.filt_sample(b(x), c.clone(), &ieee));
        if n >= 22000 {
            peak = peak.max(y.abs());
        }
    }
    assert!((peak - 0.5f64.sqrt()).abs() < 1e-3);
}

fn zavalishin_settled(mode: &str, spread: Option<f64>) -> (f64, f64, f64, f64, f64) {
    let mut f = Zavalishin::new(b(FS)).unwrap();
    f.design_filter(mode, b(FC), spread.map(b), &ieee).unwrap();
    let mut out = (0, 0, 0, 0, 0);
    for _ in 0..24000 {
        out = f.filt_sample(b(1.0), &ieee);
    }
    (num(out.0), num(out.1), num(out.2), num(out.3), num(out.4))
}

#[test]
fn zavalishin_zero_delay_low_pass_keeps_a_constant() {
    let (lp, hp, ap, _, _) = zavalishin_settled("zdf", None);
    assert!(close(lp, 1.0));
    assert!(close(hp, 0.0));
    assert!(close(ap, 1.0));
}

#[test]
fn zavalishin_trapezoidal_low_pass_keeps_a_constant() {
    let (lp, hp, _, _, _) = zavalishin_settled("trap", None);
    assert!(close(lp, 1.0));
    assert!(close(hp, 0.0));
}

#[test]
fn zavalishin_naive_low_pass_keeps_a_constant() {
    let (lp, hp, _, _, _) = zavalishin_settled("naive", None);
    assert!(close(lp, 1.0));
    assert!(close(hp, 0.0));
}

#[test]
fn zavalishin_state_variable_keeps_a_constant_in_low_pass_and_band_reject() {
    let (lp, hp, _, bp, br) = zavalishin_settled("svf", Some(500.0));
    assert!(close(lp, 1.0));
    assert!(close(hp, 0.0));
    assert!(close(bp, 0.0));
    assert!(close(br, 1.0));
}

#[test]
fn harmonic_feedback_comb_echoes_with_the_gain() {
    let mut f = Harmonic::new("combi", 4, b(FS)).unwrap();
    f.design_filter(b(0.001), None, &ieee);
    let g = 10.0f64.powf(-3.0 * (4.0 / FS) / 0.001);
    let mut impulse = vec![b(0.0); 13];
    impulse[0] = b(1.0);
    let out: Vec<f64> = f.filt_frame(impulse, &ieee).into_iter().map(num).collect();
    assert_eq!(out[0], 1.0);
    assert_eq!(out[4], -g);
    assert_eq!(out[8], g * g);
    assert_eq!(out[12], -(g * (g * g)));
    for n in [1, 2, 3, 5, 6, 7, 9, 10, 11] {
        assert_eq!(out[n], 0.0);
    }
}

#[test]
fn harmonic_gain_is_a_thousandth_after_the_reverberation_time() {
    // After t60 seconds, that is t60 * fs / D echoes, the level has fallen by 60 dB.
    let delay = 480;
    let t60 = 0.5;
    let g = 10.0f64.powf(-3.0 * ((delay as f64) / FS) / t60);
    let echoes = t60 * FS / (delay as f64);
    assert!((g.powf(echoes) - 0.001).abs() < 1e-12);
    let mut f = Harmonic::new("combf", delay, b(FS)).unwrap();
    f.design_filter(b(t60), None, &ieee);
    let mut impulse = vec![b(0.0); delay + 1];
    impulse[0] = b(1.0);
    let out = f.filt_frame(impulse, &ieee);
    assert_eq!(num(out[delay]), g);
}
