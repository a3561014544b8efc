//! The comb and all-pass family: a gain, a delay of `D` samples and, in two
//! of the modes, a one-pole low-pass in the feedback path.
use vstd::prelude::*;
use crate::arithmetic::{
    accepts_all, computes, difference, from_count, is_positive, minus, natural, negate, negation,
    over, plus, positive, power, product, quotient, raise, sum, times, Model, Op, Sample, ZERO,
};
use crate::cascade::{run, run_one_more};
use crate::coeffstruct::OnePoleCoeffs;
use crate::delayline::{pushed, zeros, DelayLine};
use crate::error::FilterError;
use crate::filtertype::{FilterType, HarmonicFilterType, OnePoleFilterType};
use crate::onepole::{one_pole_design, DesignOnePoleFilter};

verus! {

/// The gain for a reverberation time: `g = 10 ^ (-3 * (D / fs) / t60)`.
pub open spec fn harmonic_gain(m: Model, delay: u64, fs: Sample, t60: Sample) -> Sample {
    power(
        m,
        natural(m, 10),
        quotient(
            m,
            product(m, negation(m, natural(m, 3)), quotient(m, natural(m, delay), fs)),
            t60,
        ),
    )
}

/// The low-pass of the feedback path: the one-pole low-pass for the cutoff
/// `fc`, with `b1 = 0`; all zero where no cutoff is given.
pub open spec fn harmonic_low_pass(m: Model, fc: Option<Sample>, fs: Sample) -> OnePoleCoeffs {
    match fc {
        Some(cutoff) => {
            let c = one_pole_design(m, OnePoleFilterType::LowPass, cutoff, fs);
            OnePoleCoeffs { b0: c.b0, b1: ZERO, a1: c.a1 }
        },
        None => OnePoleCoeffs::zeros(),
    }
}

/// The low-pass recurrence `b0 x + a1 y1`.
pub open spec fn low_pass_output(m: Model, b0: Sample, a1: Sample, x: Sample, y1: Sample) -> Sample {
    sum(m, product(m, b0, x), product(m, a1, y1))
}

/// A comb on the sample `tap` that left the delay.
///
/// Forward: `x + g tap`. Forward, Freeverb: `-x + (1 + g) tap`.
/// Feedback (and any other mode): `x - g tap`.
pub open spec fn comb_output(m: Model, mode: HarmonicFilterType, x: Sample, g: Sample, tap: Sample) -> Sample {
    match mode {
        HarmonicFilterType::CombFIR => sum(m, x, product(m, g, tap)),
        HarmonicFilterType::CombFreeverbFIR => sum(
            m,
            negation(m, x),
            product(m, sum(m, natural(m, 1), g), tap),
        ),
        _ => difference(m, x, product(m, g, tap)),
    }
}

/// An all-pass on the delayed input `x1` and the delayed output `y1`.
///
/// Freeverb: `-x + (1 + g) x1 - g y1`. Otherwise: `g x + x1 - g y1`.
pub open spec fn all_pass_output(
    m: Model,
    mode: HarmonicFilterType,
    x: Sample,
    g: Sample,
    x1: Sample,
    y1: Sample,
) -> Sample {
    match mode {
        HarmonicFilterType::AllpassFreeverb => difference(
            m,
            sum(m, negation(m, x), product(m, sum(m, natural(m, 1), g), x1)),
            product(m, g, y1),
        ),
        _ => difference(m, sum(m, product(m, g, x), x1), product(m, g, y1)),
    }
}

/// What the filter keeps between samples: its last `D` inputs and its last
/// `D` outputs, oldest first, and the last output of the low-pass.
pub struct HarmonicMemory {
    pub x: Seq<Sample>,
    pub y: Seq<Sample>,
    pub low: Sample,
}

/// The memory of a filter with a delay of `delay` samples that has seen no sample.
pub open spec fn harmonic_rest(delay: nat) -> HarmonicMemory {
    HarmonicMemory { x: zeros(delay), y: zeros(delay), low: ZERO }
}

/// The output for one sample, and the value that the low-pass is left with
/// (zero in the modes without a low-pass).
pub open spec fn harmonic_output(
    m: Model,
    mode: HarmonicFilterType,
    g: Sample,
    lp: OnePoleCoeffs,
    s: HarmonicMemory,
    x: Sample,
) -> (Sample, Sample) {
    match mode {
        HarmonicFilterType::CombFIR => (comb_output(m, mode, x, g, s.x[0]), ZERO),
        HarmonicFilterType::CombFreeverbFIR => (comb_output(m, mode, x, g, s.x[0]), ZERO),
        HarmonicFilterType::CombIIR => (comb_output(m, mode, x, g, s.y[0]), ZERO),
        HarmonicFilterType::Allpass => (all_pass_output(m, mode, x, g, s.x[0], s.y[0]), ZERO),
        HarmonicFilterType::AllpassFreeverb => (
            all_pass_output(m, mode, x, g, s.x[0], s.y[0]),
            ZERO,
        ),
        HarmonicFilterType::LPFBCombFilter => {
            let low = low_pass_output(m, lp.b0, lp.a1, s.y[0], s.low);
            (difference(m, x, product(m, g, low)), low)
        },
        HarmonicFilterType::LPFBAllpassFilter => {
            let low = low_pass_output(m, lp.b0, lp.a1, s.y[0], s.low);
            (difference(m, sum(m, product(m, g, x), s.x[0]), product(m, g, low)), low)
        },
    }
}

/// One sample through the filter: the output, and the memory with the input
/// and the output written behind the `D` samples before them.
pub open spec fn harmonic_step(
    m: Model,
    mode: HarmonicFilterType,
    g: Sample,
    lp: OnePoleCoeffs,
) -> spec_fn(HarmonicMemory, Sample) -> (HarmonicMemory, Sample) {
    |s: HarmonicMemory, x: Sample|
        {
            let out = harmonic_output(m, mode, g, lp, s, x);
            (HarmonicMemory { x: pushed(s.x, x), y: pushed(s.y, out.0), low: out.1 }, out.0)
        }
}

/// Evaluates the low-pass recurrence.
pub fn low_pass_output_of<A: Fn(Op) -> Sample>(
    arith: &A,
    x: Sample,
    coeffs: (Sample, Sample),
    y1: Sample,
) -> (y: Sample)
    requires
        accepts_all(arith),
    ensures
        forall|m: Model| #[trigger]
            computes(arith, m) ==> y == low_pass_output(m, coeffs.0, coeffs.1, x, y1),
{
    let p: Sample = times(arith, coeffs.0, x);
    let q: Sample = times(arith, coeffs.1, y1);
    plus(arith, p, q)
}

/// Evaluates a comb on the sample that left the delay.
pub fn comb_output_of<A: Fn(Op) -> Sample>(
    arith: &A,
    mode: HarmonicFilterType,
    x: Sample,
    g: Sample,
    tap: Sample,
) -> (y: Sample)
    requires
        accepts_all(arith),
    ensures
        forall|m: Model| #[trigger] computes(arith, m) ==> y == comb_output(m, mode, x, g, tap),
{
    match mode {
        HarmonicFilterType::CombFIR => {
            let p: Sample = times(arith, g, tap);
            plus(arith, x, p)
        },
        HarmonicFilterType::CombFreeverbFIR => {
            let n: Sample = negate(arith, x);
            let one: Sample = from_count(arith, 1);
            let h: Sample = plus(arith, one, g);
            let p: Sample = times(arith, h, tap);
            plus(arith, n, p)
        },
        _ => {
            let p: Sample = times(arith, g, tap);
            minus(arith, x, p)
        },
    }
}

/// Evaluates a feedback comb with the low-pass in its feedback path; returns
/// the output and the output of the low-pass.
pub fn comb_low_pass_output_of<A: Fn(Op) -> Sample>(
    arith: &A,
    x: Sample,
    g: Sample,
    lp_coeffs: (Sample, Sample),
    x_lp: Sample,
    y_lp: Sample,
) -> (r: (Sample, Sample))
    requires
        accepts_all(arith),
    ensures
        forall|m: Model| #[trigger]
            computes(arith, m) ==> {
                &&& r.1 == low_pass_output(m, lp_coeffs.0, lp_coeffs.1, x_lp, y_lp)
                &&& r.0 == difference(m, x, product(m, g, r.1))
            },
{
    let y_low_pass: Sample = low_pass_output_of(arith, x_lp, lp_coeffs, y_lp);
    let p: Sample = times(arith, g, y_low_pass);
    let y: Sample = minus(arith, x, p);
    (y, y_low_pass)
}

/// Evaluates an all-pass on the delayed input and the delayed output.
pub fn all_pass_output_of<A: Fn(Op) -> Sample>(
    arith: &A,
    mode: HarmonicFilterType,
    x: Sample,
    g: Sample,
    x1: Sample,
    y1: Sample,
) -> (y: Sample)
    requires
        accepts_all(arith),
    ensures
        forall|m: Model| #[trigger]
            computes(arith, m) ==> y == all_pass_output(m, mode, x, g, x1, y1),
{
    match mode {
        HarmonicFilterType::AllpassFreeverb => {
            let n: Sample = negate(arith, x);
            let one: Sample = from_count(arith, 1);
            let h: Sample = plus(arith, one, g);
            let p: Sample = times(arith, h, x1);
            let s: Sample = plus(arith, n, p);
            let q: Sample = times(arith, g, y1);
            minus(arith, s, q)
        },
        _ => {
            let p: Sample = times(arith, g, x);
            let s: Sample = plus(arith, p, x1);
            let q: Sample = times(arith, g, y1);
            minus(arith, s, q)
        },
    }
}

/// Evaluates an all-pass with the low-pass in its feedback path; returns the
/// output and the output of the low-pass.
pub fn all_pass_low_pass_output_of<A: Fn(Op) -> Sample>(
    arith: &A,
    x: Sample,
    g: Sample,
    lp_coeffs: (Sample, Sample),
    x1: Sample,
    x_lp: Sample,
    y_lp: Sample,
) -> (r: (Sample, Sample))
    requires
        accepts_all(arith),
    ensures
        forall|m: Model| #[trigger]
            computes(arith, m) ==> {
                &&& r.1 == low_pass_output(m, lp_coeffs.0, lp_coeffs.1, x_lp, y_lp)
                &&& r.0 == difference(m, sum(m, product(m, g, x), x1), product(m, g, r.1))
            },
{
    let y_low_pass: Sample = low_pass_output_of(arith, x_lp, lp_coeffs, y_lp);
    let p: Sample = times(arith, g, x);
    let s: Sample = plus(arith, p, x1);
    let q: Sample = times(arith, g, y_low_pass);
    let y: Sample = minus(arith, s, q);
    (y, y_low_pass)
}

/// A comb or all-pass filter with a delay of `D` samples.
pub struct Harmonic {
    fs: Sample,
    buffer_delay: usize,
    mode: HarmonicFilterType,
    g: Sample,
    x: DelayLine,
    y: DelayLine,
    ylp: DelayLine,
    low_pass_coeffs: OnePoleCoeffs,
}

impl Harmonic {
    /// The invariant of the type: `D >= 1` slots of input memory and of
    /// output memory, and one slot for the low-pass.
    pub closed spec fn wf(&self) -> bool {
        &&& self.x.wf()
        &&& self.y.wf()
        &&& self.ylp.wf()
        &&& self.buffer_delay >= 1
        &&& self.x.len() == self.buffer_delay
        &&& self.y.len() == self.buffer_delay
        &&& self.ylp.len() == 1
    }

    /// The sampling rate that the filter was made for.
    pub closed spec fn sampling_rate(&self) -> Sample {
        self.fs
    }

    /// The delay `D` in samples.
    pub closed spec fn delay(&self) -> nat {
        self.buffer_delay as nat
    }

    /// The mode that the filter was made in.
    pub closed spec fn mode(&self) -> HarmonicFilterType {
        self.mode
    }

    /// The gain that was designed last; zero before the first design.
    pub closed spec fn gain(&self) -> Sample {
        self.g
    }

    /// The low-pass that was designed last; all zero before the first design.
    pub closed spec fn low_pass(&self) -> OnePoleCoeffs {
        self.low_pass_coeffs
    }

    /// What the filter keeps between samples.
    pub closed spec fn memory(&self) -> HarmonicMemory {
        HarmonicMemory {
            x: self.x.history(),
            y: self.y.history(),
            low: self.ylp.history()[0],
        }
    }

    /// The memory holds as many inputs and as many outputs as the delay has
    /// samples.
    pub proof fn memory_matches_delay(&self)
        requires
            self.wf(),
        ensures
            self.delay() >= 1,
            self.memory().x.len() == self.delay(),
            self.memory().y.len() == self.delay(),
    {
        self.x.lemma_wf();
        self.y.lemma_wf();
    }

    /// A filter at rest in the mode that `mode` names (`"combf"`,
    /// `"combfreev"`, `"combi"`, `"lpcombi"`, `"allpass"`, `"allpassfreev"` or
    /// `"lpallpass"`), with gain zero. A name that selects no mode is an
    /// invalid argument; with a valid name, a delay of zero samples or a
    /// sampling rate that is not positive is an invalid configuration.
    pub fn new(mode: &str, buffer_delay: usize, fs: Sample) -> (r: Result<Self, FilterError>)
        ensures
            HarmonicFilterType::named(mode@) is None ==> r == Err::<Self, FilterError>(
                FilterError::InvalidArgument,
            ),
            HarmonicFilterType::named(mode@) is Some && (buffer_delay == 0 || !is_positive(fs))
                ==> r == Err::<Self, FilterError>(FilterError::InvalidConfiguration),
            HarmonicFilterType::named(mode@) is Some && buffer_delay > 0 && is_positive(fs)
                ==> r is Ok,
            r matches Ok(f) ==> {
                &&& f.wf()
                &&& f.sampling_rate() == fs
                &&& f.delay() == buffer_delay
                &&& Some(f.mode()) == HarmonicFilterType::named(mode@)
                &&& f.gain() == ZERO
                &&& f.low_pass() == OnePoleCoeffs::zeros()
                &&& f.memory() == harmonic_rest(buffer_delay as nat)
            },
    {
        let mode = match HarmonicFilterType::from_name(mode) {
            Ok(t) => t,
            Err(e) => { return Err(e); },
        };
        if !positive(fs) {
            return Err(FilterError::InvalidConfiguration);
        }
        let g: Sample = ZERO;
        let low_pass_coeffs = OnePoleCoeffs::new();
        let x = match DelayLine::new(buffer_delay) {
            Ok(line) => line,
            Err(e) => { return Err(e); },
        };
        let y = match DelayLine::new(buffer_delay) {
            Ok(line) => line,
            Err(e) => { return Err(e); },
        };
        let ylp = match DelayLine::new(1) {
            Ok(line) => line,
            Err(e) => { return Err(e); },
        };
        Ok(Self { fs, buffer_delay, mode, g, x, y, ylp, low_pass_coeffs })
    }

    /// Designs the gain for the reverberation time `t60` and, where a cutoff
    /// `fc` is given, the low-pass of the feedback path. The memory is left
    /// as it was.
    pub fn design_filter<A: Fn(Op) -> Sample>(&mut self, t60: Sample, fc: Option<Sample>, arith: &A)
        requires
            accepts_all(arith),
        ensures
            final(self).wf() == old(self).wf(),
            final(self).sampling_rate() == old(self).sampling_rate(),
            final(self).delay() == old(self).delay(),
            final(self).mode() == old(self).mode(),
            final(self).memory() == old(self).memory(),
            forall|m: Model| #[trigger]
                computes(arith, m) ==> {
                    &&& final(self).gain() == harmonic_gain(
                        m,
                        old(self).delay() as u64,
                        old(self).sampling_rate(),
                        t60,
                    )
                    &&& final(self).low_pass() == harmonic_low_pass(
                        m,
                        fc,
                        old(self).sampling_rate(),
                    )
                },
    {
        let d: Sample = from_count(arith, self.buffer_delay as u64);
        let d_time: Sample = over(arith, d, self.fs);
        let ten: Sample = from_count(arith, 10);
        let three: Sample = from_count(arith, 3);
        let minus_three: Sample = negate(arith, three);
        let scaled: Sample = times(arith, minus_three, d_time);
        let e: Sample = over(arith, scaled, t60);
        self.g = raise(arith, ten, e);
        let (b0, a1): (Sample, Sample) = match fc {
            Some(cutoff) => {
                let mut lowpass_coeffs = DesignOnePoleFilter::new(
                    FilterType::OnePoleType(OnePoleFilterType::LowPass),
                    cutoff,
                    self.fs,
                    arith,
                );
                lowpass_coeffs.coeffs(arith);
                (lowpass_coeffs.filt_coeffs.b0, lowpass_coeffs.filt_coeffs.a1)
            },
            None => (ZERO, ZERO),
        };
        self.low_pass_coeffs.set_coeffs((b0, ZERO, a1));
    }

    /// Filters one sample in the mode of the filter, and writes the input and
    /// the output into the delays.
    pub fn filt_sample<A: Fn(Op) -> Sample>(&mut self, sample: Sample, arith: &A) -> (y: Sample)
        requires
            old(self).wf(),
            accepts_all(arith),
        ensures
            final(self).wf(),
            final(self).sampling_rate() == old(self).sampling_rate(),
            final(self).delay() == old(self).delay(),
            final(self).mode() == old(self).mode(),
            final(self).gain() == old(self).gain(),
            final(self).low_pass() == old(self).low_pass(),
            forall|m: Model| #[trigger]
                computes(arith, m) ==> (final(self).memory(), y) == harmonic_step(
                    m,
                    old(self).mode(),
                    old(self).gain(),
                    old(self).low_pass(),
                )(old(self).memory(), sample),
    {
        let lp_coeffs: (Sample, Sample) = (self.low_pass_coeffs.b0, self.low_pass_coeffs.a1);
        proof {
            self.x.lemma_wf();
            self.y.lemma_wf();
            self.ylp.lemma_wf();
        }
        let (yout, ylpass): (Sample, Sample) = match self.mode {
            HarmonicFilterType::CombFIR => (
                comb_output_of(arith, self.mode, sample, self.g, self.x.read()),
                ZERO,
            ),
            HarmonicFilterType::CombFreeverbFIR => (
                comb_output_of(arith, self.mode, sample, self.g, self.x.read()),
                ZERO,
            ),
            HarmonicFilterType::CombIIR => (
                comb_output_of(arith, self.mode, sample, self.g, self.y.read()),
                ZERO,
            ),
            HarmonicFilterType::Allpass => (
                all_pass_output_of(arith, self.mode, sample, self.g, self.x.read(), self.y.read()),
                ZERO,
            ),
            HarmonicFilterType::AllpassFreeverb => (
                all_pass_output_of(arith, self.mode, sample, self.g, self.x.read(), self.y.read()),
                ZERO,
            ),
            HarmonicFilterType::LPFBCombFilter => comb_low_pass_output_of(
                arith,
                sample,
                self.g,
                lp_coeffs,
                self.y.read(),
                self.ylp.read(),
            ),
            HarmonicFilterType::LPFBAllpassFilter => all_pass_low_pass_output_of(
                arith,
                sample,
                self.g,
                lp_coeffs,
                self.x.read(),
                self.y.read(),
                self.ylp.read(),
            ),
        };
        self.x.write_and_advance(&sample);
        self.y.write_and_advance(&yout);
        self.ylp.write_and_advance(&ylpass);
        yout
    }

    /// Filters a buffer: the samples in order, each starting from the memory
    /// that the one before it left. The result has one sample for each input.
    pub fn filt_frame<A: Fn(Op) -> Sample>(&mut self, frame: Vec<Sample>, arith: &A) -> (out: Vec<Sample>)
        requires
            old(self).wf(),
            accepts_all(arith),
        ensures
            final(self).wf(),
            final(self).sampling_rate() == old(self).sampling_rate(),
            final(self).delay() == old(self).delay(),
            final(self).mode() == old(self).mode(),
            final(self).gain() == old(self).gain(),
            final(self).low_pass() == old(self).low_pass(),
            out@.len() == frame@.len(),
            frame@.len() == 0 ==> final(self).memory() == old(self).memory(),
            forall|m: Model| #[trigger]
                computes(arith, m) ==> (final(self).memory(), out@) == run(
                    harmonic_step(m, old(self).mode(), old(self).gain(), old(self).low_pass()),
                    old(self).memory(),
                    frame@,
                ),
    {
        let mut out: Vec<Sample> = Vec::new();
        let mut i: usize = 0;
        while i < frame.len()
            invariant
                self.wf(),
                accepts_all(arith),
                self.sampling_rate() == old(self).sampling_rate(),
                self.delay() == old(self).delay(),
                self.mode() == old(self).mode(),
                self.gain() == old(self).gain(),
                self.low_pass() == old(self).low_pass(),
                i <= frame.len(),
                out@.len() == i,
                i == 0 ==> self.memory() == old(self).memory(),
                forall|m: Model| #[trigger]
                    computes(arith, m) ==> (self.memory(), out@) == run(
                        harmonic_step(m, old(self).mode(), old(self).gain(), old(self).low_pass()),
                        old(self).memory(),
                        frame@.take(i as int),
                    ),
            decreases frame.len() - i,
        {
            let y: Sample = self.filt_sample(frame[i], arith);
            out.push(y);
            proof {
                assert forall|m: Model| #[trigger] computes(arith, m) implies (self.memory(), out@)
                    == run(
                    harmonic_step(m, old(self).mode(), old(self).gain(), old(self).low_pass()),
                    old(self).memory(),
                    frame@.take(i + 1),
                ) by {
                    run_one_more(
                        harmonic_step(m, old(self).mode(), old(self).gain(), old(self).low_pass()),
                        old(self).memory(),
                        frame@,
                        i as int,
                    );
                }
            }
            i += 1;
        }
        proof {
            assert(frame@.take(frame@.len() as int) =~= frame@);
        }
        out
    }

    /// Puts the memory back to rest. The mode, the gain and the low-pass stay.
    pub fn clear_delayed_samples_cache(&mut self)
        requires
            old(self).wf(),
        ensures
            final(self).wf(),
            final(self).sampling_rate() == old(self).sampling_rate(),
            final(self).delay() == old(self).delay(),
            final(self).mode() == old(self).mode(),
            final(self).gain() == old(self).gain(),
            final(self).low_pass() == old(self).low_pass(),
            final(self).memory() == harmonic_rest(old(self).delay()),
    {
        self.x.clear();
        self.y.clear();
        self.ylp.clear();
    }
}

} // verus!
