//! The DC-blocking family: a one-sample difference with pole feedback.
use vstd::prelude::*;
use crate::arithmetic::{
    accepts_all, angular, angular_of, computes, difference, from_count, is_positive, minus,
    natural, plus, positive, product, sum, times, Model, Op, Sample, ZERO,
};
use crate::cascade::{run, run_one_more};
use crate::coeffstruct::OnePoleCoeffs;
use crate::delayline::DelayLine;
use crate::error::FilterError;
use crate::filtertype::{DcBlockFilterType, FilterType};

verus! {

/// The pole `r = 1 - 2 * pi * fc / fs`.
pub open spec fn dc_pole(m: Model, fc: Sample, fs: Sample) -> Sample {
    difference(m, natural(m, 1), angular(m, fc, fs))
}

/// The coefficients for a pole `r`: `b0 = 1`, `b1 = 0`, `a1 = r`.
pub open spec fn dc_coeffs(m: Model, r: Sample) -> OnePoleCoeffs {
    OnePoleCoeffs { b0: natural(m, 1), b1: ZERO, a1: r }
}

/// The recurrence `y = b0 x - x1 + a1 y1`; with `b0 = 1` this is
/// `y = x - x1 + r y1`.
pub open spec fn dc_output(m: Model, b0: Sample, a1: Sample, x: Sample, x1: Sample, y1: Sample) -> Sample {
    sum(m, difference(m, product(m, b0, x), x1), product(m, a1, y1))
}

/// What the filter keeps between samples: its last input and its last output.
pub struct DcMemory {
    pub x1: Sample,
    pub y1: Sample,
}

/// The memory of a filter that has seen no sample.
pub open spec fn dc_rest() -> DcMemory {
    DcMemory { x1: ZERO, y1: ZERO }
}

/// One sample through the filter: the output of the recurrence, and that input
/// and that output as the new memory.
pub open spec fn dc_step(m: Model, b0: Sample, a1: Sample) -> spec_fn(DcMemory, Sample) -> (
    DcMemory,
    Sample,
) {
    |s: DcMemory, x: Sample|
        {
            let y = dc_output(m, b0, a1, x, s.x1, s.y1);
            (DcMemory { x1: x, y1: y }, y)
        }
}

/// The design step of the family.
pub struct DesignDcFilter {
    /// The topology that was asked for.
    pub mode: FilterType,
    /// The coefficients; zero until `coeffs` has filled them in.
    pub filt_coeffs: OnePoleCoeffs,
    /// The pole for the corner frequency.
    pub r: Sample,
}

impl DesignDcFilter {
    /// Computes the pole for `fc` at the sampling rate `fs`. The coefficients
    /// are zero until `coeffs` is called.
    pub fn new<A: Fn(Op) -> Sample>(mode: FilterType, fc: Sample, fs: Sample, arith: &A) -> (d: Self)
        requires
            accepts_all(arith),
        ensures
            d.mode == mode,
            d.filt_coeffs == OnePoleCoeffs::zeros(),
            forall|m: Model| #[trigger] computes(arith, m) ==> d.r == dc_pole(m, fc, fs),
    {
        let filt_coeffs = OnePoleCoeffs::new();
        let w: Sample = angular_of(arith, fc, fs);
        let one: Sample = from_count(arith, 1);
        let r: Sample = minus(arith, one, w);
        Self { mode, filt_coeffs, r }
    }

    /// Fills in the coefficients of the topology. A topology of another family
    /// leaves them as they are.
    pub fn coeffs<A: Fn(Op) -> Sample>(&mut self, arith: &A)
        requires
            accepts_all(arith),
        ensures
            final(self).mode == old(self).mode,
            final(self).r == old(self).r,
            old(self).mode is DcBlockType ==> forall|m: Model| #[trigger]
                computes(arith, m) ==> final(self).filt_coeffs == dc_coeffs(m, old(self).r),
            !(old(self).mode is DcBlockType) ==> final(self).filt_coeffs == old(self).filt_coeffs,
    {
        match self.mode {
            FilterType::DcBlockType(DcBlockFilterType::DcBlockJulius) => {
                let one: Sample = from_count(arith, 1);
                self.filt_coeffs.set_coeffs((one, ZERO, self.r))
            },
            _ => {},
        }
    }
}

/// Evaluates the recurrence.
pub fn dc_output_of<A: Fn(Op) -> Sample>(
    arith: &A,
    x: Sample,
    coeffs: (Sample, Sample),
    x1: Sample,
    y1: Sample,
) -> (y: Sample)
    requires
        accepts_all(arith),
    ensures
        forall|m: Model| #[trigger]
            computes(arith, m) ==> y == dc_output(m, coeffs.0, coeffs.1, x, x1, y1),
{
    let p: Sample = times(arith, coeffs.0, x);
    let d: Sample = minus(arith, p, x1);
    let f: Sample = times(arith, coeffs.1, y1);
    plus(arith, d, f)
}

/// A DC blocker at a given sampling rate.
pub struct DcFilter {
    fs: Sample,
    x: DelayLine,
    y: DelayLine,
}

impl DcFilter {
    /// The invariant of the type: one slot of input memory and one of output
    /// memory.
    pub closed spec fn wf(&self) -> bool {
        &&& self.x.wf()
        &&& self.y.wf()
        &&& self.x.len() == 1
        &&& self.y.len() == 1
    }

    /// The sampling rate that the filter was made for.
    pub closed spec fn sampling_rate(&self) -> Sample {
        self.fs
    }

    /// What the filter keeps between samples.
    pub closed spec fn memory(&self) -> DcMemory {
        DcMemory { x1: self.x.history()[0], y1: self.y.history()[0] }
    }

    /// A filter at rest. A sampling rate that is not positive is an invalid
    /// configuration.
    pub fn new(fs: Sample) -> (r: Result<Self, FilterError>)
        ensures
            !is_positive(fs) ==> r == Err::<Self, FilterError>(FilterError::InvalidConfiguration),
            is_positive(fs) ==> r is Ok,
            r matches Ok(f) ==> f.wf() && f.sampling_rate() == fs && f.memory() == dc_rest(),
    {
        if !positive(fs) {
            return Err(FilterError::InvalidConfiguration);
        }
        let x = match DelayLine::new(1) {
            Ok(line) => line,
            Err(e) => { return Err(e); },
        };
        let y = match DelayLine::new(1) {
            Ok(line) => line,
            Err(e) => { return Err(e); },
        };
        Ok(Self { fs, x, y })
    }

    /// Designs the topology that `mode` names (`"dcj"`) for the corner
    /// frequency `fc`, and returns `(b0, a1)`. The filter is left as it was.
    /// A name that selects no topology is an invalid argument.
    pub fn design_filter<A: Fn(Op) -> Sample>(&mut self, mode: &str, fc: Sample, arith: &A) -> (r:
        Result<(Sample, Sample), FilterError>)
        requires
            accepts_all(arith),
        ensures
            *final(self) == *old(self),
            DcBlockFilterType::named(mode@) is None ==> r == Err::<(Sample, Sample), FilterError>(
                FilterError::InvalidArgument,
            ),
            DcBlockFilterType::named(mode@) is Some ==> r is Ok,
            DcBlockFilterType::named(mode@) is Some ==> forall|m: Model| #[trigger]
                computes(arith, m) ==> r == Ok::<(Sample, Sample), FilterError>(
                    (natural(m, 1), dc_pole(m, fc, old(self).sampling_rate())),
                ),
    {
        let topology = match DcBlockFilterType::from_name(mode) {
            Ok(t) => t,
            Err(e) => { return Err(e); },
        };
        let mut design_filter = DesignDcFilter::new(
            FilterType::DcBlockType(topology),
            fc,
            self.fs,
            arith,
        );
        design_filter.coeffs(arith);
        Ok((design_filter.filt_coeffs.b0, design_filter.filt_coeffs.a1))
    }

    /// Filters one sample and replaces the memory by it and its output.
    pub fn filt_sample<A: Fn(Op) -> Sample>(&mut self, sample: Sample, coeffs: (Sample, Sample), arith: &A) -> (y:
        Sample)
        requires
            old(self).wf(),
            accepts_all(arith),
        ensures
            final(self).wf(),
            final(self).sampling_rate() == old(self).sampling_rate(),
            forall|m: Model| #[trigger]
                computes(arith, m) ==> (final(self).memory(), y) == dc_step(m, coeffs.0, coeffs.1)(
                    old(self).memory(),
                    sample,
                ),
    {
        proof {
            self.x.lemma_wf();
            self.y.lemma_wf();
        }
        let x1: Sample = self.x.read();
        let y1: Sample = self.y.read();
        let y: Sample = dc_output_of(arith, sample, coeffs, x1, y1);
        self.x.write_and_advance(&sample);
        self.y.write_and_advance(&y);
        y
    }

    /// Filters a buffer: the samples in order, each starting from the memory
    /// that the one before it left. The result has one sample for each input.
    pub fn filt_frame<A: Fn(Op) -> Sample>(
        &mut self,
        frame: Vec<Sample>,
        coeffs: (Sample, Sample),
        arith: &A,
    ) -> (out: Vec<Sample>)
        requires
            old(self).wf(),
            accepts_all(arith),
        ensures
            final(self).wf(),
            final(self).sampling_rate() == old(self).sampling_rate(),
            out@.len() == frame@.len(),
            frame@.len() == 0 ==> final(self).memory() == old(self).memory(),
            forall|m: Model| #[trigger]
                computes(arith, m) ==> (final(self).memory(), out@) == run(
                    dc_step(m, coeffs.0, coeffs.1),
                    old(self).memory(),
                    frame@,
                ),
    {
        let mut out: Vec<Sample> = Vec::new();
        let mut i: usize = 0;
        while i < frame.len()
            invariant
                self.wf(),
                accepts_all(arith),
                self.sampling_rate() == old(self).sampling_rate(),
                i <= frame.len(),
                out@.len() == i,
                i == 0 ==> self.memory() == old(self).memory(),
                forall|m: Model| #[trigger]
                    computes(arith, m) ==> (self.memory(), out@) == run(
                        dc_step(m, coeffs.0, coeffs.1),
                        old(self).memory(),
                        frame@.take(i as int),
                    ),
            decreases frame.len() - i,
        {
            let y: Sample = self.filt_sample(frame[i], coeffs, arith);
            out.push(y);
            proof {
                assert forall|m: Model| #[trigger] computes(arith, m) implies (self.memory(), out@)
                    == run(dc_step(m, coeffs.0, coeffs.1), old(self).memory(), frame@.take(i + 1)) by {
                    run_one_more(
                        dc_step(m, coeffs.0, coeffs.1),
                        old(self).memory(),
                        frame@,
                        i as int,
                    );
                }
            }
            i += 1;
        }
        proof {
            assert(frame@.take(frame@.len() as int) =~= frame@);
        }
        out
    }

    /// Puts the memory back to rest. The sampling rate stays.
    pub fn clear_delayed_samples_cache(&mut self)
        requires
            old(self).wf(),
        ensures
            final(self).wf(),
            final(self).sampling_rate() == old(self).sampling_rate(),
            final(self).memory() == dc_rest(),
    {
        self.x.clear();
        self.y.clear();
    }
}

} // verus!
