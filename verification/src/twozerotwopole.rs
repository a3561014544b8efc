//! The two-zero and two-pole family: a notch made of two zeros, or a
//! band-pass made of two poles, of a given bandwidth.
use vstd::prelude::*;
use crate::arithmetic::{
    accepts_all, angular, angular_of, computes, cos_of, cosine, difference, evaluate, exp_of,
    exponential, from_count, is_positive, minus, natural, negate, negation, over, pi, plus,
    positive, product, quotient, sum, times, Model, Op, Sample, ZERO,
};
use crate::biquadeq::{biquad_rest, BiquadMemory};
use crate::cascade::{run, run_one_more};
use crate::coeffstruct::BiquadCoeffs;
use crate::delayline::DelayLine;
use crate::error::FilterError;
use crate::filtertype::{FilterType, TwoZeroTwoPoleFilterType};

verus! {

/// The radius `r = exp(-pi * bw / fs)`.
pub open spec fn two_pole_radius(m: Model, bw: Sample, fs: Sample) -> Sample {
    exponential(m, quotient(m, product(m, negation(m, pi(m)), bw), fs))
}

/// The coefficients of a topology from `cos = cos(2 pi fc / fs)` and the
/// radius `r`.
///
/// Notch: `b0 = 1`, `b1 = -2 r cos`, `b2 = r^2`, and no feedback.
/// Band-pass: `b0 = 1`, `a1 = -2 r cos`, `a2 = r^2`, and no other feedforward.
/// `a0` is zero in both and is not used by the recurrence.
pub open spec fn two_pole_coeffs(
    m: Model,
    topology: TwoZeroTwoPoleFilterType,
    cos: Sample,
    r: Sample,
) -> BiquadCoeffs {
    let middle = product(m, product(m, negation(m, natural(m, 2)), r), cos);
    let square = product(m, r, r);
    match topology {
        TwoZeroTwoPoleFilterType::Notch => BiquadCoeffs {
            b0: natural(m, 1),
            b1: middle,
            b2: square,
            a0: ZERO,
            a1: ZERO,
            a2: ZERO,
        },
        TwoZeroTwoPoleFilterType::Bp => BiquadCoeffs {
            b0: natural(m, 1),
            b1: ZERO,
            b2: ZERO,
            a0: ZERO,
            a1: middle,
            a2: square,
        },
    }
}

/// The coefficients of a topology for the centre frequency `fc`, the sampling
/// rate `fs` and the bandwidth `bw`.
pub open spec fn two_pole_design(
    m: Model,
    topology: TwoZeroTwoPoleFilterType,
    fc: Sample,
    fs: Sample,
    bw: Sample,
) -> BiquadCoeffs {
    two_pole_coeffs(m, topology, cosine(m, angular(m, fc, fs)), two_pole_radius(m, bw, fs))
}

/// The recurrence `y = b0 x + b1 x1 + b2 x2 - a1 y1 - a2 y2`.
pub open spec fn two_pole_output(
    m: Model,
    c: BiquadCoeffs,
    x: Sample,
    x1: Sample,
    x2: Sample,
    y1: Sample,
    y2: Sample,
) -> Sample {
    difference(
        m,
        difference(
            m,
            sum(m, sum(m, product(m, c.b0, x), product(m, c.b1, x1)), product(m, c.b2, x2)),
            product(m, c.a1, y1),
        ),
        product(m, c.a2, y2),
    )
}

/// One sample through the filter: the output of the recurrence, and the
/// memory shifted by one sample.
pub open spec fn two_pole_step(m: Model, c: BiquadCoeffs) -> spec_fn(BiquadMemory, Sample) -> (
    BiquadMemory,
    Sample,
) {
    |s: BiquadMemory, x: Sample|
        {
            let y = two_pole_output(m, c, x, s.x1, s.x2, s.y1, s.y2);
            (BiquadMemory { x1: x, x2: s.x1, y1: y, y2: s.y1 }, y)
        }
}

/// The design step of the family.
pub struct DesignTwoPoleTwoZeroFilter {
    /// The topology that was asked for.
    pub mode: FilterType,
    /// The coefficients; zero until `coeffs` has filled them in.
    pub filt_coeffs: BiquadCoeffs,
    pub theta_cosine: Sample,
    pub r: Sample,
}

impl DesignTwoPoleTwoZeroFilter {
    /// Computes the derived quantities. The coefficients are zero until
    /// `coeffs` is called.
    pub fn new<A: Fn(Op) -> Sample>(
        mode: FilterType,
        fc: Sample,
        fs: Sample,
        bw: Sample,
        arith: &A,
    ) -> (d: Self)
        requires
            accepts_all(arith),
        ensures
            d.mode == mode,
            d.filt_coeffs == BiquadCoeffs::zeros(),
            forall|m: Model| #[trigger]
                computes(arith, m) ==> {
                    &&& d.theta_cosine == cosine(m, angular(m, fc, fs))
                    &&& d.r == two_pole_radius(m, bw, fs)
                },
    {
        let filt_coeffs = BiquadCoeffs::new();
        let w: Sample = angular_of(arith, fc, fs);
        let theta_cosine: Sample = cos_of(arith, w);
        let p: Sample = evaluate(arith, Op::Pi);
        let minus_pi: Sample = negate(arith, p);
        let scaled: Sample = times(arith, minus_pi, bw);
        let e: Sample = over(arith, scaled, fs);
        let r: Sample = exp_of(arith, e);
        Self { mode, filt_coeffs, theta_cosine, r }
    }

    /// Fills in the coefficients of the topology. A topology of another family
    /// leaves them as they are.
    pub fn coeffs<A: Fn(Op) -> Sample>(&mut self, arith: &A)
        requires
            accepts_all(arith),
        ensures
            final(self).mode == old(self).mode,
            final(self).theta_cosine == old(self).theta_cosine,
            final(self).r == old(self).r,
            old(self).mode matches FilterType::TwoZeroTwoPoleType(t) ==> forall|m: Model| #[trigger]
                computes(arith, m) ==> final(self).filt_coeffs == two_pole_coeffs(
                    m,
                    t,
                    old(self).theta_cosine,
                    old(self).r,
                ),
            !(old(self).mode is TwoZeroTwoPoleType) ==> final(self).filt_coeffs == old(
                self,
            ).filt_coeffs,
    {
        match self.mode {
            FilterType::TwoZeroTwoPoleType(TwoZeroTwoPoleFilterType::Notch) => {
                let b0: Sample = from_count(arith, 1);
                let two: Sample = from_count(arith, 2);
                let minus_two: Sample = negate(arith, two);
                let scaled: Sample = times(arith, minus_two, self.r);
                let b1: Sample = times(arith, scaled, self.theta_cosine);
                let b2: Sample = times(arith, self.r, self.r);
                self.filt_coeffs.set_coeffs((b0, b1, b2, ZERO, ZERO, ZERO))
            },
            FilterType::TwoZeroTwoPoleType(TwoZeroTwoPoleFilterType::Bp) => {
                let b0: Sample = from_count(arith, 1);
                let two: Sample = from_count(arith, 2);
                let minus_two: Sample = negate(arith, two);
                let scaled: Sample = times(arith, minus_two, self.r);
                let a1: Sample = times(arith, scaled, self.theta_cosine);
                let a2: Sample = times(arith, self.r, self.r);
                self.filt_coeffs.set_coeffs((b0, ZERO, ZERO, ZERO, a1, a2))
            },
            _ => {},
        }
    }
}

/// Evaluates the recurrence.
pub fn two_pole_output_of<A: Fn(Op) -> Sample>(
    arith: &A,
    c: &BiquadCoeffs,
    x: Sample,
    x1: Sample,
    x2: Sample,
    y1: Sample,
    y2: Sample,
) -> (y: Sample)
    requires
        accepts_all(arith),
    ensures
        forall|m: Model| #[trigger]
            computes(arith, m) ==> y == two_pole_output(m, *c, x, x1, x2, y1, y2),
{
    let t0: Sample = times(arith, c.b0, x);
    let t1: Sample = times(arith, c.b1, x1);
    let t2: Sample = times(arith, c.b2, x2);
    let q1: Sample = times(arith, c.a1, y1);
    let q2: Sample = times(arith, c.a2, y2);
    let s1: Sample = plus(arith, t0, t1);
    let s2: Sample = plus(arith, s1, t2);
    let s3: Sample = minus(arith, s2, q1);
    minus(arith, s3, q2)
}

/// A two-zero or two-pole filter at a given sampling rate.
///
/// The registers `x1` and `y1` hold one sample, the registers `x2` and `y2`
/// two: under their cursor is what was written two samples ago.
pub struct TwoZeroTwoPole {
    fs: Sample,
    x1: DelayLine,
    x2: DelayLine,
    y1: DelayLine,
    y2: DelayLine,
}

impl TwoZeroTwoPole {
    /// The invariant of the type: registers of one and of two slots, and the
    /// newer slot of each two-sample register equal to the one-sample
    /// register beside it.
    pub closed spec fn wf(&self) -> bool {
        &&& self.x1.wf()
        &&& self.x2.wf()
        &&& self.y1.wf()
        &&& self.y2.wf()
        &&& self.x1.len() == 1
        &&& self.y1.len() == 1
        &&& self.x2.len() == 2
        &&& self.y2.len() == 2
        &&& self.x2.history()[1] == self.x1.history()[0]
        &&& self.y2.history()[1] == self.y1.history()[0]
    }

    /// The sampling rate that the filter was made for.
    pub closed spec fn sampling_rate(&self) -> Sample {
        self.fs
    }

    /// What the filter keeps between samples.
    pub closed spec fn memory(&self) -> BiquadMemory {
        BiquadMemory {
            x1: self.x1.history()[0],
            x2: self.x2.history()[0],
            y1: self.y1.history()[0],
            y2: self.y2.history()[0],
        }
    }

    /// A filter at rest. A sampling rate that is not positive is an invalid
    /// configuration.
    pub fn new(fs: Sample) -> (r: Result<Self, FilterError>)
        ensures
            !is_positive(fs) ==> r == Err::<Self, FilterError>(FilterError::InvalidConfiguration),
            is_positive(fs) ==> r is Ok,
            r matches Ok(f) ==> f.wf() && f.sampling_rate() == fs && f.memory() == biquad_rest(),
    {
        if !positive(fs) {
            return Err(FilterError::InvalidConfiguration);
        }
        let x1 = match DelayLine::new(1) {
            Ok(line) => line,
            Err(e) => { return Err(e); },
        };
        let x2 = match DelayLine::new(2) {
            Ok(line) => line,
            Err(e) => { return Err(e); },
        };
        let y1 = match DelayLine::new(1) {
            Ok(line) => line,
            Err(e) => { return Err(e); },
        };
        let y2 = match DelayLine::new(2) {
            Ok(line) => line,
            Err(e) => { return Err(e); },
        };
        Ok(Self { fs, x1, x2, y1, y2 })
    }

    /// Designs the topology that `mode` names (`"notch"` or `"bp"`) for the
    /// centre frequency `fc` and the bandwidth `bw`, and returns
    /// `(b0, b1, b2, a0, a1, a2)`. The filter is left as it was. A name that
    /// selects no topology is an invalid argument.
    pub fn design_filter<A: Fn(Op) -> Sample>(
        &mut self,
        mode: &str,
        fc: Sample,
        bw: Sample,
        arith: &A,
    ) -> (r: Result<(Sample, Sample, Sample, Sample, Sample, Sample), FilterError>)
        requires
            accepts_all(arith),
        ensures
            *final(self) == *old(self),
            TwoZeroTwoPoleFilterType::named(mode@) is None ==> r == Err::<
                (Sample, Sample, Sample, Sample, Sample, Sample),
                FilterError,
            >(FilterError::InvalidArgument),
            TwoZeroTwoPoleFilterType::named(mode@) is Some ==> r is Ok,
            TwoZeroTwoPoleFilterType::named(mode@) matches Some(t) ==> forall|m: Model| #[trigger]
                computes(arith, m) ==> r == Ok::<
                    (Sample, Sample, Sample, Sample, Sample, Sample),
                    FilterError,
                >(two_pole_design(m, t, fc, old(self).sampling_rate(), bw).tuple()),
    {
        let topology = match TwoZeroTwoPoleFilterType::from_name(mode) {
            Ok(t) => t,
            Err(e) => { return Err(e); },
        };
        let mut design_filter = DesignTwoPoleTwoZeroFilter::new(
            FilterType::TwoZeroTwoPoleType(topology),
            fc,
            self.fs,
            bw,
            arith,
        );
        design_filter.coeffs(arith);
        let coeffs = design_filter.filt_coeffs;
        Ok((coeffs.b0, coeffs.b1, coeffs.b2, coeffs.a0, coeffs.a1, coeffs.a2))
    }

    /// Filters one sample and shifts the memory by it.
    pub fn filt_sample<A: Fn(Op) -> Sample>(
        &mut self,
        sample: Sample,
        coeffs: (Sample, Sample, Sample, Sample, Sample, Sample),
        arith: &A,
    ) -> (y: Sample)
        requires
            old(self).wf(),
            accepts_all(arith),
        ensures
            final(self).wf(),
            final(self).sampling_rate() == old(self).sampling_rate(),
            forall|m: Model| #[trigger]
                computes(arith, m) ==> (final(self).memory(), y) == two_pole_step(
                    m,
                    BiquadCoeffs::of(coeffs),
                )(old(self).memory(), sample),
    {
        let c = BiquadCoeffs {
            b0: coeffs.0,
            b1: coeffs.1,
            b2: coeffs.2,
            a0: coeffs.3,
            a1: coeffs.4,
            a2: coeffs.5,
        };
        proof {
            self.x1.lemma_wf();
            self.x2.lemma_wf();
            self.y1.lemma_wf();
            self.y2.lemma_wf();
        }
        let x1: Sample = self.x1.read();
        let x2: Sample = self.x2.read();
        let y1: Sample = self.y1.read();
        let y2: Sample = self.y2.read();
        let y: Sample = two_pole_output_of(arith, &c, sample, x1, x2, y1, y2);
        self.x1.write_and_advance(&sample);
        self.x2.write_and_advance(&sample);
        self.y1.write_and_advance(&y);
        self.y2.write_and_advance(&y);
        y
    }

    /// Filters a buffer: the samples in order, each starting from the memory
    /// that the one before it left. The result has one sample for each input.
    pub fn filt_frame<A: Fn(Op) -> Sample>(
        &mut self,
        frame: Vec<Sample>,
        coeffs: (Sample, Sample, Sample, Sample, Sample, Sample),
        arith: &A,
    ) -> (out: Vec<Sample>)
        requires
            old(self).wf(),
            accepts_all(arith),
        ensures
            final(self).wf(),
            final(self).sampling_rate() == old(self).sampling_rate(),
            out@.len() == frame@.len(),
            frame@.len() == 0 ==> final(self).memory() == old(self).memory(),
            forall|m: Model| #[trigger]
                computes(arith, m) ==> (final(self).memory(), out@) == run(
                    two_pole_step(m, BiquadCoeffs::of(coeffs)),
                    old(self).memory(),
                    frame@,
                ),
    {
        let mut out: Vec<Sample> = Vec::new();
        let mut i: usize = 0;
        while i < frame.len()
            invariant
                self.wf(),
                accepts_all(arith),
                self.sampling_rate() == old(self).sampling_rate(),
                i <= frame.len(),
                out@.len() == i,
                i == 0 ==> self.memory() == old(self).memory(),
                forall|m: Model| #[trigger]
                    computes(arith, m) ==> (self.memory(), out@) == run(
                        two_pole_step(m, BiquadCoeffs::of(coeffs)),
                        old(self).memory(),
                        frame@.take(i as int),
                    ),
            decreases frame.len() - i,
        {
            let y: Sample = self.filt_sample(frame[i], coeffs, arith);
            out.push(y);
            proof {
                assert forall|m: Model| #[trigger] computes(arith, m) implies (self.memory(), out@)
                    == run(
                    two_pole_step(m, BiquadCoeffs::of(coeffs)),
                    old(self).memory(),
                    frame@.take(i + 1),
                ) by {
                    run_one_more(
                        two_pole_step(m, BiquadCoeffs::of(coeffs)),
                        old(self).memory(),
                        frame@,
                        i as int,
                    );
                }
            }
            i += 1;
        }
        proof {
            assert(frame@.take(frame@.len() as int) =~= frame@);
        }
        out
    }

    /// Puts the memory back to rest. The sampling rate stays.
    pub fn clear_delayed_samples_cache(&mut self)
        requires
            old(self).wf(),
        ensures
            final(self).wf(),
            final(self).sampling_rate() == old(self).sampling_rate(),
            final(self).memory() == biquad_rest(),
    {
        self.x1.clear();
        self.x2.clear();
        self.y1.clear();
        self.y2.clear();
    }
}

} // verus!
