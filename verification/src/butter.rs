//! The first-order Butterworth family: low-pass and high-pass sections from
//! the bilinear transform, and the band-pass and band-reject that are built
//! from one of each; cascaded to any order.
use vstd::prelude::*;
use crate::arithmetic::{
    accepts_all, computes, difference, from_count, is_positive, minus, natural, negate, negation,
    over, plus, positive, product, quotient, sum, tan_of, tangent, times, two_pi, two_pi_of, Model,
    Op, Sample, ZERO,
};
use crate::cascade::{
    cascade, cascade_step, replaced_stages_are_the_cascade, run, run_one_more, signal_at,
};
use crate::coeffstruct::OnePoleCoeffs;
use crate::delayline::{after_writes, register_delays, write_one_more, DelayLine};
use crate::error::FilterError;
use crate::filtertype::{ButterFilterType, FilterType};

verus! {

/// The pre-warped frequency `Wa = 2 * tan(wc * Ts / 2)` with `wc = 2 * pi * fc`
/// and `Ts = 1 / fs`.
pub open spec fn butter_warp(m: Model, fc: Sample, fs: Sample) -> Sample {
    let wc = product(m, two_pi(m), fc);
    let ts = quotient(m, natural(m, 1), fs);
    product(m, natural(m, 2), tangent(m, quotient(m, product(m, wc, ts), natural(m, 2))))
}

/// The coefficients of the low-pass and of the high-pass for a pre-warped
/// frequency `wa`; the other two topologies have no section of their own.
///
/// Low-pass: `b0 = b1 = wa / (2 + wa)`. High-pass: `b0 = 2 / (2 + wa)`,
/// `b1 = -b0`. Both: `a1 = (wa - 2) / (2 + wa)`.
pub open spec fn butter_coeffs(m: Model, topology: ButterFilterType, wa: Sample) -> Option<
    OnePoleCoeffs,
> {
    let a1 = quotient(m, difference(m, wa, natural(m, 2)), sum(m, natural(m, 2), wa));
    match topology {
        ButterFilterType::Lp => {
            let b0 = quotient(m, wa, sum(m, natural(m, 2), wa));
            Some(OnePoleCoeffs { b0, b1: b0, a1 })
        },
        ButterFilterType::Hp => {
            let b0 = quotient(m, natural(m, 2), sum(m, natural(m, 2), wa));
            Some(OnePoleCoeffs { b0, b1: negation(m, b0), a1 })
        },
        _ => None,
    }
}

/// The topology, where it is one of this family that has a section of its own.
pub open spec fn single_section(mode: FilterType) -> Option<ButterFilterType> {
    match mode {
        FilterType::ButterType(ButterFilterType::Lp) => Some(ButterFilterType::Lp),
        FilterType::ButterType(ButterFilterType::Hp) => Some(ButterFilterType::Hp),
        _ => None,
    }
}

/// The low-pass section for the corner frequency `fc`.
pub open spec fn butter_low_pass(m: Model, fc: Sample, fs: Sample) -> OnePoleCoeffs {
    butter_coeffs(m, ButterFilterType::Lp, butter_warp(m, fc, fs))->0
}

/// The high-pass section for the corner frequency `fc`.
pub open spec fn butter_high_pass(m: Model, fc: Sample, fs: Sample) -> OnePoleCoeffs {
    butter_coeffs(m, ButterFilterType::Hp, butter_warp(m, fc, fs))->0
}

/// `fc + bw / 2`, the upper edge of a band.
pub open spec fn upper_edge(m: Model, fc: Sample, bw: Sample) -> Sample {
    sum(m, fc, quotient(m, bw, natural(m, 2)))
}

/// `fc - bw / 2`, the lower edge of a band.
pub open spec fn lower_edge(m: Model, fc: Sample, bw: Sample) -> Sample {
    difference(m, fc, quotient(m, bw, natural(m, 2)))
}

/// The three coefficients of a section as a sequence `b0, b1, a1`.
pub open spec fn as_three(c: OnePoleCoeffs) -> Seq<Sample> {
    seq![c.b0, c.b1, c.a1]
}

/// What a design returns: the three coefficients of the low-pass or of the
/// high-pass at `fc`; for the band-pass those of a low-pass at the upper edge
/// and then those of a high-pass at the lower edge; for the band-reject those
/// of a low-pass at the lower edge and then those of a high-pass at the upper
/// edge. The band topologies need the bandwidth: without it there is no design.
pub open spec fn butter_design(
    m: Model,
    topology: ButterFilterType,
    fc: Sample,
    fs: Sample,
    bw: Option<Sample>,
) -> Option<Seq<Sample>> {
    match topology {
        ButterFilterType::Lp => Some(as_three(butter_low_pass(m, fc, fs))),
        ButterFilterType::Hp => Some(as_three(butter_high_pass(m, fc, fs))),
        ButterFilterType::Bp => match bw {
            Some(b) => Some(
                as_three(butter_low_pass(m, upper_edge(m, fc, b), fs)) + as_three(
                    butter_high_pass(m, lower_edge(m, fc, b), fs),
                ),
            ),
            None => None,
        },
        ButterFilterType::Notch => match bw {
            Some(b) => Some(
                as_three(butter_low_pass(m, lower_edge(m, fc, b), fs)) + as_three(
                    butter_high_pass(m, upper_edge(m, fc, b), fs),
                ),
            ),
            None => None,
        },
    }
}

/// Whether a design exists: the name selects a topology, and a band topology
/// comes with its bandwidth.
pub open spec fn butter_designable(name: Seq<char>, bw: Option<Sample>) -> bool {
    match ButterFilterType::named(name) {
        Some(ButterFilterType::Lp) | Some(ButterFilterType::Hp) => true,
        Some(_) => bw is Some,
        None => false,
    }
}

/// The number of coefficients that a filter in the given mode reads.
pub open spec fn butter_needs(mode: Option<ButterFilterType>) -> nat {
    match mode {
        Some(ButterFilterType::Bp) | Some(ButterFilterType::Notch) => 6,
        _ => 3,
    }
}

/// The recurrence `y = b0 x + b1 x1 - a1 y1`.
pub open spec fn butter_output(
    m: Model,
    b0: Sample,
    b1: Sample,
    a1: Sample,
    x: Sample,
    x1: Sample,
    y1: Sample,
) -> Sample {
    difference(m, sum(m, product(m, b0, x), product(m, b1, x1)), product(m, a1, y1))
}

/// What one stage keeps between samples: the last input and output of its
/// first section (`xtemp`, `ytemp`), which only the band topologies have, and
/// those of its second or only section (`x1`, `y1`).
pub struct ButterStage {
    pub xtemp: Sample,
    pub ytemp: Sample,
    pub x1: Sample,
    pub y1: Sample,
}

/// One sample through one stage.
///
/// Band-pass: the low-pass filters the input and the high-pass filters what
/// the low-pass gives. Band-reject: the low-pass and the high-pass both filter
/// the input, and the output is the sum of theirs. Otherwise: the one section
/// that the first three coefficients describe.
pub open spec fn butter_section(m: Model, mode: Option<ButterFilterType>, c: Seq<Sample>) -> spec_fn(
    ButterStage,
    Sample,
) -> (ButterStage, Sample) {
    |s: ButterStage, x: Sample|
        match mode {
            Some(ButterFilterType::Bp) => {
                let t = butter_output(m, c[0], c[1], c[2], x, s.xtemp, s.ytemp);
                let y = butter_output(m, c[3], c[4], c[5], t, s.x1, s.y1);
                (ButterStage { xtemp: x, ytemp: t, x1: t, y1: y }, y)
            },
            Some(ButterFilterType::Notch) => {
                let low = butter_output(m, c[0], c[1], c[2], x, s.xtemp, s.ytemp);
                let high = butter_output(m, c[3], c[4], c[5], x, s.x1, s.y1);
                (ButterStage { xtemp: x, ytemp: low, x1: x, y1: high }, sum(m, low, high))
            },
            _ => {
                let y = butter_output(m, c[0], c[1], c[2], x, s.x1, s.y1);
                (ButterStage { xtemp: s.xtemp, ytemp: s.ytemp, x1: x, y1: y }, y)
            },
        }
}

/// The stages of a filter that has seen no sample.
pub open spec fn butter_rest(order: nat) -> Seq<ButterStage> {
    Seq::new(order, |i: int| ButterStage { xtemp: ZERO, ytemp: ZERO, x1: ZERO, y1: ZERO })
}

/// The design step of the family.
pub struct DesignButterFilter {
    /// The coefficients of the section designed last; zero before the first.
    pub filt_coeffs: OnePoleCoeffs,
}

impl DesignButterFilter {
    pub fn new() -> (d: Self)
        ensures
            d.filt_coeffs == OnePoleCoeffs::zeros(),
    {
        let filt_coeffs = OnePoleCoeffs::new();
        Self { filt_coeffs }
    }

    /// Designs the low-pass or the high-pass for the corner frequency `fc`.
    /// Any other topology leaves the coefficients as they are.
    pub fn coeffs<A: Fn(Op) -> Sample>(&mut self, mode: FilterType, fc: Sample, fs: Sample, arith: &A)
        requires
            accepts_all(arith),
        ensures
            match single_section(mode) {
                Some(t) => forall|m: Model| #[trigger]
                    computes(arith, m) ==> Some(final(self).filt_coeffs) == butter_coeffs(
                        m,
                        t,
                        butter_warp(m, fc, fs),
                    ),
                None => final(self).filt_coeffs == old(self).filt_coeffs,
            },
    {
        let tp: Sample = two_pi_of(arith);
        let wc: Sample = times(arith, tp, fc);
        let one: Sample = from_count(arith, 1);
        let two: Sample = from_count(arith, 2);
        let ts: Sample = over(arith, one, fs);
        let wc_ts: Sample = times(arith, wc, ts);
        let half: Sample = over(arith, wc_ts, two);
        let t: Sample = tan_of(arith, half);
        let wtan: Sample = times(arith, two, t);
        match mode {
            FilterType::ButterType(ButterFilterType::Lp) => {
                let d: Sample = plus(arith, two, wtan);
                let b0: Sample = over(arith, wtan, d);
                let b1: Sample = b0;
                let n: Sample = minus(arith, wtan, two);
                let a1: Sample = over(arith, n, d);
                self.filt_coeffs.set_coeffs((b0, b1, a1))
            },
            FilterType::ButterType(ButterFilterType::Hp) => {
                let d: Sample = plus(arith, two, wtan);
                let b0: Sample = over(arith, two, d);
                let b1: Sample = negate(arith, b0);
                let n: Sample = minus(arith, wtan, two);
                let a1: Sample = over(arith, n, d);
                self.filt_coeffs.set_coeffs((b0, b1, a1))
            },
            _ => {},
        }
    }
}

/// Evaluates the recurrence of one section.
pub fn butter_output_of<A: Fn(Op) -> Sample>(
    arith: &A,
    b0: Sample,
    b1: Sample,
    a1: Sample,
    x: Sample,
    x1: Sample,
    y1: Sample,
) -> (y: Sample)
    requires
        accepts_all(arith),
    ensures
        forall|m: Model| #[trigger]
            computes(arith, m) ==> y == butter_output(m, b0, b1, a1, x, x1, y1),
{
    let t0: Sample = times(arith, b0, x);
    let t1: Sample = times(arith, b1, x1);
    let t2: Sample = times(arith, a1, y1);
    let s: Sample = plus(arith, t0, t1);
    minus(arith, s, t2)
}

/// A Butterworth filter of a given order at a given sampling rate.
pub struct Butter {
    mode: Option<ButterFilterType>,
    fs: Sample,
    order: usize,
    xtemp: DelayLine,
    ytemp: DelayLine,
    x1: DelayLine,
    y1: DelayLine,
}

impl Butter {
    /// The invariant of the type: four registers with one slot for each of at
    /// least one stage.
    pub closed spec fn wf(&self) -> bool {
        &&& self.xtemp.wf()
        &&& self.ytemp.wf()
        &&& self.x1.wf()
        &&& self.y1.wf()
        &&& self.order >= 1
        &&& self.xtemp.len() == self.order
        &&& self.ytemp.len() == self.order
        &&& self.x1.len() == self.order
        &&& self.y1.len() == self.order
    }

    /// The sampling rate that the filter was made for.
    pub closed spec fn sampling_rate(&self) -> Sample {
        self.fs
    }

    /// The number of stages.
    pub closed spec fn order(&self) -> nat {
        self.order as nat
    }

    /// The topology that was designed last, if any was.
    pub closed spec fn mode(&self) -> Option<ButterFilterType> {
        self.mode
    }

    /// The memory of each stage, first stage first.
    pub closed spec fn stages(&self) -> Seq<ButterStage> {
        Seq::new(
            self.order as nat,
            |i: int|
                ButterStage {
                    xtemp: self.xtemp.history()[i],
                    ytemp: self.ytemp.history()[i],
                    x1: self.x1.history()[i],
                    y1: self.y1.history()[i],
                },
        )
    }

    /// There is one stage for each unit of the order, at all times.
    pub proof fn one_stage_for_each_order(&self)
        ensures
            self.stages().len() == self.order(),
    {
    }

    /// A filter at rest with no topology designed. `order` defaults to 1; an
    /// order of zero or a sampling rate that is not positive is an invalid
    /// configuration.
    pub fn new(fs: Sample, order: Option<usize>) -> (r: Result<Self, FilterError>)
        ensures
            (order == Some(0usize) || !is_positive(fs)) ==> r == Err::<Self, FilterError>(
                FilterError::InvalidConfiguration,
            ),
            !(order == Some(0usize) || !is_positive(fs)) ==> r is Ok,
            r matches Ok(f) ==> {
                &&& f.wf()
                &&& f.sampling_rate() == fs
                &&& f.mode() is None
                &&& f.order() == (match order {
                    Some(n) => n as nat,
                    None => 1,
                })
                &&& f.stages() == butter_rest(f.order())
            },
    {
        let filt_order: usize = match order {
            Some(order_value) => order_value,
            None => 1,
        };
        if !positive(fs) {
            return Err(FilterError::InvalidConfiguration);
        }
        let xtemp = match DelayLine::new(filt_order) {
            Ok(line) => line,
            Err(e) => { return Err(e); },
        };
        let ytemp = match DelayLine::new(filt_order) {
            Ok(line) => line,
            Err(e) => { return Err(e); },
        };
        let x1 = match DelayLine::new(filt_order) {
            Ok(line) => line,
            Err(e) => { return Err(e); },
        };
        let y1 = match DelayLine::new(filt_order) {
            Ok(line) => line,
            Err(e) => { return Err(e); },
        };
        let f = Self { mode: None, fs, order: filt_order, xtemp, ytemp, x1, y1 };
        assert(f.stages() =~= butter_rest(f.order()));
        Ok(f)
    }

    /// Designs the topology that `mode` names (`"lp"`, `"hp"`, `"bp"` or
    /// `"br"`) and makes it the mode of the filter; the memory of the stages
    /// is left as it was. The band topologies need the bandwidth `bw`. A name
    /// that selects no topology, or a band topology without a bandwidth, is an
    /// invalid argument and leaves the filter as it was.
    pub fn design_filter<A: Fn(Op) -> Sample>(
        &mut self,
        mode: &str,
        fc: Sample,
        bw: Option<Sample>,
        arith: &A,
    ) -> (r: Result<Vec<Sample>, FilterError>)
        requires
            accepts_all(arith),
        ensures
            final(self).wf() == old(self).wf(),
            final(self).sampling_rate() == old(self).sampling_rate(),
            final(self).order() == old(self).order(),
            final(self).stages() == old(self).stages(),
            butter_designable(mode@, bw) ==> r is Ok && final(self).mode()
                == ButterFilterType::named(mode@),
            !butter_designable(mode@, bw) ==> r is Err && *final(self) == *old(self),
            r matches Err(e) ==> e == FilterError::InvalidArgument,
            r matches Ok(v) ==> forall|m: Model| #[trigger]
                computes(arith, m) ==> Some(v@) == butter_design(
                    m,
                    ButterFilterType::named(mode@)->0,
                    fc,
                    old(self).sampling_rate(),
                    bw,
                ),
    {
        let topology = match ButterFilterType::from_name(mode) {
            Ok(t) => t,
            Err(e) => { return Err(e); },
        };
        let fs: Sample = self.fs;
        let mut design_filter = DesignButterFilter::new();
        let mut coeffs: Vec<Sample> = Vec::new();
        match topology {
            ButterFilterType::Lp => {
                design_filter.coeffs(FilterType::ButterType(ButterFilterType::Lp), fc, fs, arith);
                coeffs.push(design_filter.filt_coeffs.b0);
                coeffs.push(design_filter.filt_coeffs.b1);
                coeffs.push(design_filter.filt_coeffs.a1);
                proof {
                    assert forall|m: Model| #[trigger] computes(arith, m) implies Some(coeffs@)
                        == butter_design(m, topology, fc, fs, bw) by {
                        assert(coeffs@ =~= as_three(butter_low_pass(m, fc, fs)));
                    }
                }
            },
            ButterFilterType::Hp => {
                design_filter.coeffs(FilterType::ButterType(ButterFilterType::Hp), fc, fs, arith);
                coeffs.push(design_filter.filt_coeffs.b0);
                coeffs.push(design_filter.filt_coeffs.b1);
                coeffs.push(design_filter.filt_coeffs.a1);
                proof {
                    assert forall|m: Model| #[trigger] computes(arith, m) implies Some(coeffs@)
                        == butter_design(m, topology, fc, fs, bw) by {
                        assert(coeffs@ =~= as_three(butter_high_pass(m, fc, fs)));
                    }
                }
            },
            ButterFilterType::Bp => {
                let bw_value: Sample = match bw {
                    Some(b) => b,
                    None => { return Err(FilterError::InvalidArgument); },
                };
                let two: Sample = from_count(arith, 2);
                let half: Sample = over(arith, bw_value, two);
                let upper: Sample = plus(arith, fc, half);
                design_filter.coeffs(FilterType::ButterType(ButterFilterType::Lp), upper, fs, arith);
                coeffs.push(design_filter.filt_coeffs.b0);
                coeffs.push(design_filter.filt_coeffs.b1);
                coeffs.push(design_filter.filt_coeffs.a1);
                let lower: Sample = minus(arith, fc, half);
                design_filter.coeffs(FilterType::ButterType(ButterFilterType::Hp), lower, fs, arith);
                coeffs.push(design_filter.filt_coeffs.b0);
                coeffs.push(design_filter.filt_coeffs.b1);
                coeffs.push(design_filter.filt_coeffs.a1);
                proof {
                    assert forall|m: Model| #[trigger] computes(arith, m) implies Some(coeffs@)
                        == butter_design(m, topology, fc, fs, bw) by {
                        assert(coeffs@ =~= as_three(
                            butter_low_pass(m, upper_edge(m, fc, bw_value), fs),
                        ) + as_three(butter_high_pass(m, lower_edge(m, fc, bw_value), fs)));
                    }
                }
            },
            ButterFilterType::Notch => {
                let bw_value: Sample = match bw {
                    Some(b) => b,
                    None => { return Err(FilterError::InvalidArgument); },
                };
                let two: Sample = from_count(arith, 2);
                let half: Sample = over(arith, bw_value, two);
                let lower: Sample = minus(arith, fc, half);
                design_filter.coeffs(FilterType::ButterType(ButterFilterType::Lp), lower, fs, arith);
                coeffs.push(design_filter.filt_coeffs.b0);
                coeffs.push(design_filter.filt_coeffs.b1);
                coeffs.push(design_filter.filt_coeffs.a1);
                let upper: Sample = plus(arith, fc, half);
                design_filter.coeffs(FilterType::ButterType(ButterFilterType::Hp), upper, fs, arith);
                coeffs.push(design_filter.filt_coeffs.b0);
                coeffs.push(design_filter.filt_coeffs.b1);
                coeffs.push(design_filter.filt_coeffs.a1);
                proof {
                    assert forall|m: Model| #[trigger] computes(arith, m) implies Some(coeffs@)
                        == butter_design(m, topology, fc, fs, bw) by {
                        assert(coeffs@ =~= as_three(
                            butter_low_pass(m, lower_edge(m, fc, bw_value), fs),
                        ) + as_three(butter_high_pass(m, upper_edge(m, fc, bw_value), fs)));
                    }
                }
            },
        }
        self.mode = Some(topology);
        Ok(coeffs)
    }

    /// The number of coefficients that `filt_sample` and `filt_frame` read in
    /// the mode of the filter: six for a band topology, else three.
    pub fn coefficients_needed(&self) -> (n: usize)
        ensures
            n == butter_needs(self.mode()),
    {
        match self.mode {
            Some(ButterFilterType::Bp) => 6,
            Some(ButterFilterType::Notch) => 6,
            _ => 3,
        }
    }

    /// One sample through the stages of a low-pass or high-pass filter.
    fn pass_single<A: Fn(Op) -> Sample>(&mut self, sample: Sample, coeffs: &Vec<Sample>, arith: &A) -> (y:
        Sample)
        requires
            old(self).wf(),
            accepts_all(arith),
            coeffs@.len() >= 3,
            !(old(self).mode() matches Some(ButterFilterType::Bp)),
            !(old(self).mode() matches Some(ButterFilterType::Notch)),
        ensures
            final(self).wf(),
            final(self).sampling_rate() == old(self).sampling_rate(),
            final(self).order() == old(self).order(),
            final(self).mode() == old(self).mode(),
            forall|m: Model| #[trigger]
                computes(arith, m) ==> (final(self).stages(), y) == cascade(
                    butter_section(m, old(self).mode(), coeffs@),
                    old(self).stages(),
                    sample,
                ),
    {
        let ghost before = old(self).stages();
        let ghost mode = self.mode;
        let ghost c = coeffs@;
        let ghost x1_old = old(self).x1.history();
        let ghost y1_old = old(self).y1.history();
        let ghost n = self.order as int;
        let ghost mut xs: Seq<Sample> = Seq::empty();
        let ghost mut ys: Seq<Sample> = Seq::empty();
        let mut x: Sample = sample;
        let mut y: Sample = ZERO;
        let mut k: usize = 0;
        proof {
            self.x1.lemma_wf();
            self.y1.lemma_wf();
            self.xtemp.lemma_wf();
            self.ytemp.lemma_wf();
            write_one_more(x1_old, xs, ZERO);
            write_one_more(y1_old, ys, ZERO);
        }
        while k < self.order
            invariant
                self.xtemp.wf(),
                self.ytemp.wf(),
                self.x1.wf(),
                self.y1.wf(),
                self.fs == old(self).fs,
                self.order == old(self).order,
                self.mode == old(self).mode,
                self.xtemp == old(self).xtemp,
                self.ytemp == old(self).ytemp,
                mode == self.mode,
                !(mode matches Some(ButterFilterType::Bp)),
                !(mode matches Some(ButterFilterType::Notch)),
                n == self.order,
                n >= 1,
                x1_old.len() == n,
                y1_old.len() == n,
                self.xtemp.history().len() == n,
                self.ytemp.history().len() == n,
                k <= n,
                xs.len() == k,
                ys.len() == k,
                accepts_all(arith),
                c == coeffs@,
                c.len() >= 3,
                before == old(self).stages(),
                x1_old == old(self).x1.history(),
                y1_old == old(self).y1.history(),
                self.x1.history() == after_writes(x1_old, xs),
                self.y1.history() == after_writes(y1_old, ys),
                k > 0 ==> y == x,
                forall|m: Model| #[trigger]
                    computes(arith, m) ==> {
                        &&& x == signal_at(butter_section(m, mode, c), before, sample, k as int)
                        &&& forall|i: int|
                            0 <= i < k ==> (ButterStage {
                                xtemp: before[i].xtemp,
                                ytemp: before[i].ytemp,
                                x1: xs[i],
                                y1: ys[i],
                            }) == butter_section(m, mode, c)(
                                before[i],
                                #[trigger] signal_at(butter_section(m, mode, c), before, sample, i),
                            ).0
                    },
            decreases n - k,
        {
            let ghost x_in = x;
            proof {
                register_delays(x1_old, xs, 0);
                register_delays(y1_old, ys, 0);
            }
            let x1: Sample = self.x1.read();
            let y1: Sample = self.y1.read();
            y = butter_output_of(arith, coeffs[0], coeffs[1], coeffs[2], x, x1, y1);
            self.x1.write_and_advance(&x);
            self.y1.write_and_advance(&y);
            proof {
                write_one_more(x1_old, xs, x);
                write_one_more(y1_old, ys, y);
                assert(before[k as int].x1 == x1 && before[k as int].y1 == y1);
                assert forall|m: Model| #[trigger] computes(arith, m) implies {
                    &&& y == signal_at(butter_section(m, mode, c), before, sample, k + 1)
                    &&& forall|i: int|
                        0 <= i < k + 1 ==> (ButterStage {
                            xtemp: before[i].xtemp,
                            ytemp: before[i].ytemp,
                            x1: xs.push(x_in)[i],
                            y1: ys.push(y)[i],
                        }) == butter_section(m, mode, c)(
                            before[i],
                            #[trigger] signal_at(butter_section(m, mode, c), before, sample, i),
                        ).0
                } by {
                    let sec = butter_section(m, mode, c);
                    assert(x_in == signal_at(sec, before, sample, k as int));
                    assert(y == sec(before[k as int], x_in).1);
                    assert(y == signal_at(sec, before, sample, k + 1));
                }
                xs = xs.push(x);
                ys = ys.push(y);
            }
            x = y;
            k += 1;
        }
        proof {
            let after = self.stages();
            assert forall|i: int| 0 <= i < n implies #[trigger] after[i] == (ButterStage {
                xtemp: before[i].xtemp,
                ytemp: before[i].ytemp,
                x1: xs[i],
                y1: ys[i],
            }) by {
                register_delays(x1_old, xs, i);
                register_delays(y1_old, ys, i);
            }
            assert forall|m: Model| #[trigger] computes(arith, m) implies (self.stages(), y)
                == cascade(butter_section(m, mode, c), before, sample) by {
                replaced_stages_are_the_cascade(butter_section(m, mode, c), before, sample, after);
            }
        }
        y
    }

    /// One sample through the stages of a band-pass or band-reject filter.
    fn pass_band<A: Fn(Op) -> Sample>(&mut self, sample: Sample, coeffs: &Vec<Sample>, arith: &A) -> (y:
        Sample)
        requires
            old(self).wf(),
            accepts_all(arith),
            coeffs@.len() >= 6,
            old(self).mode() matches Some(t) && (t is Bp || t is Notch),
        ensures
            final(self).wf(),
            final(self).sampling_rate() == old(self).sampling_rate(),
            final(self).order() == old(self).order(),
            final(self).mode() == old(self).mode(),
            forall|m: Model| #[trigger]
                computes(arith, m) ==> (final(self).stages(), y) == cascade(
                    butter_section(m, old(self).mode(), coeffs@),
                    old(self).stages(),
                    sample,
                ),
    {
        let reject: bool = match self.mode {
            Some(ButterFilterType::Notch) => true,
            _ => false,
        };
        let ghost before = old(self).stages();
        let ghost mode = self.mode;
        let ghost c = coeffs@;
        let ghost xt_old = old(self).xtemp.history();
        let ghost yt_old = old(self).ytemp.history();
        let ghost x1_old = old(self).x1.history();
        let ghost y1_old = old(self).y1.history();
        let ghost n = self.order as int;
        let ghost mut xts: Seq<Sample> = Seq::empty();
        let ghost mut yts: Seq<Sample> = Seq::empty();
        let ghost mut xs: Seq<Sample> = Seq::empty();
        let ghost mut ys: Seq<Sample> = Seq::empty();
        let mut x: Sample = sample;
        let mut y: Sample = ZERO;
        let mut k: usize = 0;
        proof {
            self.x1.lemma_wf();
            self.y1.lemma_wf();
            self.xtemp.lemma_wf();
            self.ytemp.lemma_wf();
            write_one_more(xt_old, xts, ZERO);
            write_one_more(yt_old, yts, ZERO);
            write_one_more(x1_old, xs, ZERO);
            write_one_more(y1_old, ys, ZERO);
        }
        while k < self.order
            invariant
                self.xtemp.wf(),
                self.ytemp.wf(),
                self.x1.wf(),
                self.y1.wf(),
                self.fs == old(self).fs,
                self.order == old(self).order,
                self.mode == old(self).mode,
                mode == self.mode,
                mode matches Some(t) && (t is Bp || t is Notch),
                reject == (mode matches Some(ButterFilterType::Notch)),
                n == self.order,
                n >= 1,
                xt_old.len() == n,
                yt_old.len() == n,
                x1_old.len() == n,
                y1_old.len() == n,
                k <= n,
                xts.len() == k,
                yts.len() == k,
                xs.len() == k,
                ys.len() == k,
                accepts_all(arith),
                c == coeffs@,
                c.len() >= 6,
                before == old(self).stages(),
                xt_old == old(self).xtemp.history(),
                yt_old == old(self).ytemp.history(),
                x1_old == old(self).x1.history(),
                y1_old == old(self).y1.history(),
                self.xtemp.history() == after_writes(xt_old, xts),
                self.ytemp.history() == after_writes(yt_old, yts),
                self.x1.history() == after_writes(x1_old, xs),
                self.y1.history() == after_writes(y1_old, ys),
                k > 0 ==> y == x,
                forall|m: Model| #[trigger]
                    computes(arith, m) ==> {
                        &&& x == signal_at(butter_section(m, mode, c), before, sample, k as int)
                        &&& forall|i: int|
                            0 <= i < k ==> (ButterStage {
                                xtemp: xts[i],
                                ytemp: yts[i],
                                x1: xs[i],
                                y1: ys[i],
                            }) == butter_section(m, mode, c)(
                                before[i],
                                #[trigger] signal_at(butter_section(m, mode, c), before, sample, i),
                            ).0
                    },
            decreases n - k,
        {
            let ghost x_in = x;
            proof {
                register_delays(xt_old, xts, 0);
                register_delays(yt_old, yts, 0);
                register_delays(x1_old, xs, 0);
                register_delays(y1_old, ys, 0);
            }
            let xt: Sample = self.xtemp.read();
            let yt: Sample = self.ytemp.read();
            let x1: Sample = self.x1.read();
            let y1: Sample = self.y1.read();
            let first: Sample = butter_output_of(arith, coeffs[0], coeffs[1], coeffs[2], x, xt, yt);
            let into_second: Sample = if reject {
                x
            } else {
                first
            };
            let second: Sample = butter_output_of(
                arith,
                coeffs[3],
                coeffs[4],
                coeffs[5],
                into_second,
                x1,
                y1,
            );
            y = if reject {
                plus(arith, first, second)
            } else {
                second
            };
            self.xtemp.write_and_advance(&x);
            self.ytemp.write_and_advance(&first);
            self.x1.write_and_advance(&into_second);
            self.y1.write_and_advance(&second);
            proof {
                write_one_more(xt_old, xts, x);
                write_one_more(yt_old, yts, first);
                write_one_more(x1_old, xs, into_second);
                write_one_more(y1_old, ys, second);
                assert(before[k as int] == ButterStage { xtemp: xt, ytemp: yt, x1, y1 });
                assert forall|m: Model| #[trigger] computes(arith, m) implies {
                    &&& y == signal_at(butter_section(m, mode, c), before, sample, k + 1)
                    &&& forall|i: int|
                        0 <= i < k + 1 ==> (ButterStage {
                            xtemp: xts.push(x_in)[i],
                            ytemp: yts.push(first)[i],
                            x1: xs.push(into_second)[i],
                            y1: ys.push(second)[i],
                        }) == butter_section(m, mode, c)(
                            before[i],
                            #[trigger] signal_at(butter_section(m, mode, c), before, sample, i),
                        ).0
                } by {
                    let sec = butter_section(m, mode, c);
                    assert(x_in == signal_at(sec, before, sample, k as int));
                    assert(y == sec(before[k as int], x_in).1);
                    assert(y == signal_at(sec, before, sample, k + 1));
                }
                xts = xts.push(x);
                yts = yts.push(first);
                xs = xs.push(into_second);
                ys = ys.push(second);
            }
            x = y;
            k += 1;
        }
        proof {
            let after = self.stages();
            assert forall|i: int| 0 <= i < n implies #[trigger] after[i] == (ButterStage {
                xtemp: xts[i],
                ytemp: yts[i],
                x1: xs[i],
                y1: ys[i],
            }) by {
                register_delays(xt_old, xts, i);
                register_delays(yt_old, yts, i);
                register_delays(x1_old, xs, i);
                register_delays(y1_old, ys, i);
            }
            assert forall|m: Model| #[trigger] computes(arith, m) implies (self.stages(), y)
                == cascade(butter_section(m, mode, c), before, sample) by {
                replaced_stages_are_the_cascade(butter_section(m, mode, c), before, sample, after);
            }
        }
        y
    }

    /// One sample through the stages, in the mode of the filter.
    fn pass<A: Fn(Op) -> Sample>(&mut self, sample: Sample, coeffs: &Vec<Sample>, arith: &A) -> (y:
        Sample)
        requires
            old(self).wf(),
            accepts_all(arith),
            coeffs@.len() >= butter_needs(old(self).mode()),
        ensures
            final(self).wf(),
            final(self).sampling_rate() == old(self).sampling_rate(),
            final(self).order() == old(self).order(),
            final(self).mode() == old(self).mode(),
            forall|m: Model| #[trigger]
                computes(arith, m) ==> (final(self).stages(), y) == cascade(
                    butter_section(m, old(self).mode(), coeffs@),
                    old(self).stages(),
                    sample,
                ),
    {
        match self.mode {
            Some(ButterFilterType::Bp) => self.pass_band(sample, coeffs, arith),
            Some(ButterFilterType::Notch) => self.pass_band(sample, coeffs, arith),
            _ => self.pass_single(sample, coeffs, arith),
        }
    }

    /// Filters one sample in the mode that was designed last: it passes
    /// through the stages in order, each stage reading and then replacing its
    /// own memory. `coeffs` holds the three coefficients of the section, or
    /// the six of the two sections of a band topology. A filter for which
    /// nothing was designed works as a single section.
    pub fn filt_sample<A: Fn(Op) -> Sample>(&mut self, sample: Sample, coeffs: Vec<Sample>, arith: &A) -> (y:
        Sample)
        requires
            old(self).wf(),
            accepts_all(arith),
            coeffs@.len() >= butter_needs(old(self).mode()),
        ensures
            final(self).wf(),
            final(self).sampling_rate() == old(self).sampling_rate(),
            final(self).order() == old(self).order(),
            final(self).mode() == old(self).mode(),
            forall|m: Model| #[trigger]
                computes(arith, m) ==> (final(self).stages(), y) == cascade(
                    butter_section(m, old(self).mode(), coeffs@),
                    old(self).stages(),
                    sample,
                ),
    {
        self.pass(sample, &coeffs, arith)
    }

    /// Filters a buffer: the samples in order, each starting from the state
    /// that the one before it left. The result has one sample for each input.
    pub fn filt_frame<A: Fn(Op) -> Sample>(&mut self, frame: Vec<Sample>, coeffs: Vec<Sample>, arith: &A) -> (out:
        Vec<Sample>)
        requires
            old(self).wf(),
            accepts_all(arith),
            coeffs@.len() >= butter_needs(old(self).mode()),
        ensures
            final(self).wf(),
            final(self).sampling_rate() == old(self).sampling_rate(),
            final(self).order() == old(self).order(),
            final(self).mode() == old(self).mode(),
            out@.len() == frame@.len(),
            frame@.len() == 0 ==> final(self).stages() == old(self).stages(),
            forall|m: Model| #[trigger]
                computes(arith, m) ==> (final(self).stages(), out@) == run(
                    cascade_step(butter_section(m, old(self).mode(), coeffs@)),
                    old(self).stages(),
                    frame@,
                ),
    {
        let mut out: Vec<Sample> = Vec::new();
        let mut i: usize = 0;
        while i < frame.len()
            invariant
                self.wf(),
                accepts_all(arith),
                self.sampling_rate() == old(self).sampling_rate(),
                self.order() == old(self).order(),
                self.mode() == old(self).mode(),
                coeffs@.len() >= butter_needs(old(self).mode()),
                i <= frame.len(),
                out@.len() == i,
                i == 0 ==> self.stages() == old(self).stages(),
                forall|m: Model| #[trigger]
                    computes(arith, m) ==> (self.stages(), out@) == run(
                        cascade_step(butter_section(m, old(self).mode(), coeffs@)),
                        old(self).stages(),
                        frame@.take(i as int),
                    ),
            decreases frame.len() - i,
        {
            let y: Sample = self.pass(frame[i], &coeffs, arith);
            out.push(y);
            proof {
                assert forall|m: Model| #[trigger] computes(arith, m) implies (self.stages(), out@)
                    == run(
                    cascade_step(butter_section(m, old(self).mode(), coeffs@)),
                    old(self).stages(),
                    frame@.take(i + 1),
                ) by {
                    run_one_more(
                        cascade_step(butter_section(m, old(self).mode(), coeffs@)),
                        old(self).stages(),
                        frame@,
                        i as int,
                    );
                }
            }
            i += 1;
        }
        proof {
            assert(frame@.take(frame@.len() as int) =~= frame@);
        }
        out
    }

    /// Puts every stage back to rest. The sampling rate, the order and the
    /// mode stay.
    pub fn clear_delayed_samples_cache(&mut self)
        requires
            old(self).wf(),
        ensures
            final(self).wf(),
            final(self).sampling_rate() == old(self).sampling_rate(),
            final(self).order() == old(self).order(),
            final(self).mode() == old(self).mode(),
            final(self).stages() == butter_rest(old(self).order()),
    {
        self.xtemp.clear();
        self.ytemp.clear();
        self.x1.clear();
        self.y1.clear();
        assert(self.stages() =~= butter_rest(old(self).order()));
    }
}

} // verus!
