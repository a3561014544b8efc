use rustlibfilt::arithmetic::Op;
use rustlibfilt::error::FilterError;
use rustlibfilt::harmonic::Harmonic;

fn num(bits: u64) -> f64 {
    f64::from_bits(bits)
}

fn b(x: f64) -> u64 {
    x.to_bits()
}

fn ieee(op: Op) -> u64 {
    let r = match op {
        Op::Nat(n) => n as f64,
        Op::Pi => std::f64::consts::PI,
        Op::Neg(a) => -num(a),
        Op::Sin(a) => num(a).sin(),
        Op::Cos(a) => num(a).cos(),
        Op::Tan(a) => num(a).tan(),
        Op::Exp(a) => num(a).exp(),
        Op::Sqrt(a) => num(a).sqrt(),
        Op::Add(a, b) => num(a) + num(b),
        Op::Sub(a, b) => num(a) - num(b),
        Op::Mul(a, b) => num(a) * num(b),
        Op::Div(a, b) => num(a) / num(b),
        Op::Pow(a, b) => num(a).powf(num(b)),
    };
    r.to_bits()
}

const FS: f64 = 44100.0;

/// The filter written out on plain numbers: delays as vectors with a cursor.
struct Plain {
    mode: &'static str,
    g: f64,
    b0: f64,
    a1: f64,
    x: Vec<f64>,
    y: Vec<f64>,
    low: f64,
    at: usize,
}

impl Plain {
    fn new(mode: &'static str, delay: usize, t60: f64, fc: Option<f64>) -> Plain {
        let d_time = (delay as f64) / FS;
        let g = 10.0f64.powf(-3.0 * d_time / t60);
        let (b0, a1) = match fc {
            Some(cutoff) => {
                let w = 2.0 * std::f64::consts::PI * cutoff / FS;
                let alpha = (-2.0 * w).exp();
                (1.0 - alpha, alpha)
            }
            None => (0.0, 0.0),
        };
        Plain { mode, g, b0, a1, x: vec![0.0; delay], y: vec![0.0; delay], low: 0.0, at: 0 }
    }

    fn step(&mut self, x: f64) -> f64 {
        let g = self.g;
        let x1 = self.x[self.at];
        let y1 = self.y[self.at];
        let mut low = 0.0;
        let y = match self.mode {
            "combf" => x + g * x1,
            "combfreev" => -x + (1.0 + g) * x1,
            "combi" => x - g * y1,
            "allpass" => g * x + x1 - g * y1,
            "allpassfreev" => -x + (1.0 + g) * x1 - g * y1,
            "lpcombi" => {
                low = self.b0 * y1 + self.a1 * self.low;
                x - g * low
            }
            "lpallpass" => {
                low = self.b0 * y1 + self.a1 * self.low;
                g * x + x1 - g * low
            }
            _ => unreachable!(),
        };
        self.low = low;
        self.x[self.at] = x;
        self.y[self.at] = y;
        self.at = (self.at + 1) % self.x.len();
        y
    }
}

fn input() -> Vec<f64> {
    (0..60).map(|i| ((i as f64) * 0.37).sin() + if i == 0 { 1.0 } else { 0.0 }).collect()
}

fn agrees(mode: &'static str, delay: usize, fc: Option<f64>) {
    let mut f = Harmonic::new(mode, delay, b(FS)).unwrap();
    f.design_filter(b(1.5), fc.map(b), &ieee);
    let mut plain = Plain::new(mode, delay, 1.5, fc);
    for x in input() {
        assert_eq!(num(f.filt_sample(b(x), &ieee)), plain.step(x));
    }
}

#[test]
fn harmonic_forward_comb() {
    agrees("combf", 5, None);
}

#[test]
fn harmonic_forward_comb_freeverb() {
    agrees("combfreev", 5, None);
}

#[test]
fn harmonic_feedback_comb() {
    agrees("combi", 4, None);
}

#[test]
fn harmonic_low_pass_feedback_comb() {
    agrees("lpcombi", 3, Some(4000.0));
}

#[test]
fn harmonic_all_pass() {
    agrees("allpass", 7, None);
}

#[test]
fn harmonic_all_pass_freeverb() {
    agrees("allpassfreev", 1, None);
}

#[test]
fn harmonic_low_pass_all_pass() {
    agrees("lpallpass", 6, Some(2500.0));
}

#[test]
fn harmonic_low_pass_modes_without_a_cutoff_have_no_feedback() {
    let mut f = Harmonic::new("lpcombi", 2, b(FS)).unwrap();
    f.design_filter(b(1.0), None, &ieee);
    for x in [1.0, -3.0, 0.25, 8.0, 0.0] {
        assert_eq!(num(f.filt_sample(b(x), &ieee)), x);
    }
}

#[test]
fn harmonic_before_any_design_the_gain_is_zero() {
    let mut f = Harmonic::new("combf", 2, b(FS)).unwrap();
    for x in [1.0, -3.0, 0.25, 8.0, 0.0] {
        assert_eq!(num(f.filt_sample(b(x), &ieee)), x);
    }
    let mut a = Harmonic::new("allpass", 2, b(FS)).unwrap();
    let out: Vec<f64> = [1.0, 2.0, 4.0, 8.0].iter().map(|&x| num(a.filt_sample(b(x), &ieee))).collect();
    assert_eq!(out, vec![0.0, 0.0, 1.0, 2.0]);
}

#[test]
fn harmonic_forward_comb_delays_by_the_given_number_of_samples() {
    let mut f = Harmonic::new("combf", 3, b(FS)).unwrap();
    // An infinite reverberation time gives a gain of exactly one.
    f.design_filter(b(f64::INFINITY), None, &ieee);
    let out: Vec<f64> =
        [1.0, 0.0, 0.0, 0.0, 0.0].iter().map(|&x| num(f.filt_sample(b(x), &ieee))).collect();
    assert_eq!(out, vec![1.0, 0.0, 0.0, 1.0, 0.0]);
}

#[test]
fn harmonic_unknown_mode_is_invalid_argument() {
    assert!(matches!(Harmonic::new("comb", 4, b(FS)), Err(FilterError::InvalidArgument)));
    assert!(matches!(Harmonic::new("comb", 0, b(-1.0)), Err(FilterError::InvalidArgument)));
}

#[test]
fn harmonic_configuration_is_checked() {
    assert!(matches!(Harmonic::new("combf", 0, b(FS)), Err(FilterError::InvalidConfiguration)));
    assert!(matches!(Harmonic::new("combf", 4, b(0.0)), Err(FilterError::InvalidConfiguration)));
}

#[test]
fn harmonic_frame_is_sample_by_sample() {
    let frame: Vec<u64> = input().into_iter().map(b).collect();
    let mut a = Harmonic::new("lpallpass", 4, b(FS)).unwrap();
    let mut z = Harmonic::new("lpallpass", 4, b(FS)).unwrap();
    a.design_filter(b(0.8), Some(b(3000.0)), &ieee);
    z.design_filter(b(0.8), Some(b(3000.0)), &ieee);
    let whole = a.filt_frame(frame.clone(), &ieee);
    let single: Vec<u64> = frame.iter().map(|&x| z.filt_sample(x, &ieee)).collect();
    assert_eq!(whole, single);
}

#[test]
fn harmonic_empty_frame_gives_nothing_and_keeps_state() {
    let mut a = Harmonic::new("combi", 2, b(FS)).unwrap();
    let mut z = Harmonic::new("combi", 2, b(FS)).unwrap();
    a.design_filter(b(0.8), None, &ieee);
    z.design_filter(b(0.8), None, &ieee);
    a.filt_sample(b(1.0), &ieee);
    z.filt_sample(b(1.0), &ieee);
    assert!(a.filt_frame(Vec::new(), &ieee).is_empty());
    for x in [3.0, 1.0, -1.0] {
        assert_eq!(a.filt_sample(b(x), &ieee), z.filt_sample(b(x), &ieee));
    }
}

#[test]
fn harmonic_clear_gives_a_fresh_filter_with_the_same_design() {
    let frame: Vec<u64> = input().into_iter().map(b).collect();
    let mut used = Harmonic::new("lpcombi", 3, b(FS)).unwrap();
    used.design_filter(b(0.8), Some(b(3000.0)), &ieee);
    used.filt_frame(frame.clone(), &ieee);
    used.clear_delayed_samples_cache();
    let mut fresh = Harmonic::new("lpcombi", 3, b(FS)).unwrap();
    fresh.design_filter(b(0.8), Some(b(3000.0)), &ieee);
    assert_eq!(used.filt_frame(frame.clone(), &ieee), fresh.filt_frame(frame, &ieee));
}

#[test]
fn harmonic_design_keeps_the_memory() {
    let mut a = Harmonic::new("combf", 2, b(FS)).unwrap();
    a.design_filter(b(f64::INFINITY), None, &ieee);
    a.filt_sample(b(5.0), &ieee);
    a.filt_sample(b(7.0), &ieee);
    a.design_filter(b(f64::INFINITY), Some(b(100.0)), &ieee);
    assert_eq!(num(a.filt_sample(b(1.0), &ieee)), 6.0);
    assert_eq!(num(a.filt_sample(b(1.0), &ieee)), 8.0);
}
