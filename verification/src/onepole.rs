//! The one-pole family: a first-order low-pass or high-pass section, cascaded
//! to any order.
use vstd::prelude::*;
use crate::arithmetic::{
    accepts_all, angular, angular_of, computes, difference, exp_of, exponential, from_count,
    is_positive, minus, natural, negate, negation, over, plus, positive, product, quotient, sum,
    times, Model, Op, Sample, ZERO,
};
use crate::cascade::{
    cascade, cascade_step, replaced_stages_are_the_cascade, run, run_one_more, signal_at,
};
use crate::coeffstruct::OnePoleCoeffs;
use crate::delayline::{after_writes, register_delays, write_one_more, DelayLine};
use crate::error::FilterError;
use crate::filtertype::{FilterType, OnePoleFilterType};

verus! {

/// The pole of the family: `exp(-2 * (2 * pi * fc / fs))`.
pub open spec fn one_pole_alpha(m: Model, fc: Sample, fs: Sample) -> Sample {
    exponential(m, product(m, negation(m, natural(m, 2)), angular(m, fc, fs)))
}

/// The coefficients of a topology for a given pole `alpha`.
///
/// Low-pass: `b0 = 1 - alpha`, `b1 = 0`, `a1 = alpha`.
/// High-pass: `b0 = (1 + alpha) / 2`, `b1 = -b0`, `a1 = alpha`.
pub open spec fn one_pole_coeffs(m: Model, topology: OnePoleFilterType, alpha: Sample) -> OnePoleCoeffs {
    match topology {
        OnePoleFilterType::LowPass => OnePoleCoeffs {
            b0: difference(m, natural(m, 1), alpha),
            b1: ZERO,
            a1: alpha,
        },
        OnePoleFilterType::HighPass => {
            let b0 = quotient(m, sum(m, natural(m, 1), alpha), natural(m, 2));
            OnePoleCoeffs { b0, b1: negation(m, b0), a1: alpha }
        },
    }
}

/// The coefficients of a topology for a corner frequency `fc` at the sampling rate `fs`.
pub open spec fn one_pole_design(m: Model, topology: OnePoleFilterType, fc: Sample, fs: Sample) -> OnePoleCoeffs {
    one_pole_coeffs(m, topology, one_pole_alpha(m, fc, fs))
}

/// What one stage keeps between samples: its last input and its last output.
pub struct OnePoleStage {
    pub x1: Sample,
    pub y1: Sample,
}

/// The recurrence `y = b0 * x + b1 * x1 + a1 * y1`.
pub open spec fn one_pole_output(m: Model, c: OnePoleCoeffs, x: Sample, x1: Sample, y1: Sample) -> Sample {
    sum(m, sum(m, product(m, c.b0, x), product(m, c.b1, x1)), product(m, c.a1, y1))
}

/// One sample through one stage: the output of the recurrence, and the stage
/// with that input and that output as its new memory.
pub open spec fn one_pole_section(m: Model, c: OnePoleCoeffs) -> spec_fn(OnePoleStage, Sample) -> (
    OnePoleStage,
    Sample,
) {
    |stage: OnePoleStage, x: Sample|
        {
            let y = one_pole_output(m, c, x, stage.x1, stage.y1);
            (OnePoleStage { x1: x, y1: y }, y)
        }
}

/// The stages of a filter that has seen no sample.
pub open spec fn one_pole_rest(order: nat) -> Seq<OnePoleStage> {
    Seq::new(order, |i: int| OnePoleStage { x1: ZERO, y1: ZERO })
}

/// The design step of the family: the pole for a corner frequency, and from it
/// the coefficients of a topology.
pub struct DesignOnePoleFilter {
    /// The topology that was asked for.
    pub mode: FilterType,
    /// The coefficients; zero until `coeffs` has filled them in.
    pub filt_coeffs: OnePoleCoeffs,
    /// The pole for the corner frequency.
    pub alpha: Sample,
}

impl DesignOnePoleFilter {
    /// Computes the pole for `fc` at the sampling rate `fs`. The coefficients
    /// are zero until `coeffs` is called.
    pub fn new<A: Fn(Op) -> Sample>(mode: FilterType, fc: Sample, fs: Sample, arith: &A) -> (d: Self)
        requires
            accepts_all(arith),
        ensures
            d.mode == mode,
            d.filt_coeffs == OnePoleCoeffs::zeros(),
            forall|m: Model| #[trigger] computes(arith, m) ==> d.alpha == one_pole_alpha(m, fc, fs),
    {
        let filt_coeffs = OnePoleCoeffs::new();
        let w: Sample = angular_of(arith, fc, fs);
        let two: Sample = from_count(arith, 2);
        let minus_two: Sample = negate(arith, two);
        let scaled: Sample = times(arith, minus_two, w);
        let alpha: Sample = exp_of(arith, scaled);
        Self { mode, filt_coeffs, alpha }
    }

    /// Fills in the coefficients of the topology. A topology of another family
    /// leaves them as they are.
    pub fn coeffs<A: Fn(Op) -> Sample>(&mut self, arith: &A)
        requires
            accepts_all(arith),
        ensures
            final(self).mode == old(self).mode,
            final(self).alpha == old(self).alpha,
            old(self).mode matches FilterType::OnePoleType(t) ==> forall|m: Model| #[trigger]
                computes(arith, m) ==> final(self).filt_coeffs == one_pole_coeffs(
                    m,
                    t,
                    old(self).alpha,
                ),
            !(old(self).mode is OnePoleType) ==> final(self).filt_coeffs == old(self).filt_coeffs,
    {
        match self.mode {
            FilterType::OnePoleType(OnePoleFilterType::LowPass) => {
                let one: Sample = from_count(arith, 1);
                let b0: Sample = minus(arith, one, self.alpha);
                let a1: Sample = self.alpha;
                self.filt_coeffs.set_coeffs((b0, ZERO, a1));
            },
            FilterType::OnePoleType(OnePoleFilterType::HighPass) => {
                let one: Sample = from_count(arith, 1);
                let two: Sample = from_count(arith, 2);
                let n: Sample = plus(arith, one, self.alpha);
                let b0: Sample = over(arith, n, two);
                let b1: Sample = negate(arith, b0);
                let a1: Sample = self.alpha;
                self.filt_coeffs.set_coeffs((b0, b1, a1));
            },
            _ => {},
        }
    }
}

/// Evaluates the recurrence of one stage.
pub fn one_pole_output_of<A: Fn(Op) -> Sample>(
    arith: &A,
    c: &OnePoleCoeffs,
    x: Sample,
    x1: Sample,
    y1: Sample,
) -> (y: Sample)
    requires
        accepts_all(arith),
    ensures
        forall|m: Model| #[trigger] computes(arith, m) ==> y == one_pole_output(m, *c, x, x1, y1),
{
    let t0: Sample = times(arith, c.b0, x);
    let t1: Sample = times(arith, c.b1, x1);
    let t2: Sample = times(arith, c.a1, y1);
    let s: Sample = plus(arith, t0, t1);
    plus(arith, s, t2)
}

/// A one-pole filter of a given order at a given sampling rate.
pub struct OnePole {
    fs: Sample,
    x: DelayLine,
    y: DelayLine,
    order: usize,
}

impl OnePole {
    /// The invariant of the type: one slot of input memory and one of output
    /// memory for each of at least one stage.
    pub closed spec fn wf(&self) -> bool {
        &&& self.x.wf()
        &&& self.y.wf()
        &&& self.order >= 1
        &&& self.x.len() == self.order
        &&& self.y.len() == self.order
    }

    /// The sampling rate that the filter was made for.
    pub closed spec fn sampling_rate(&self) -> Sample {
        self.fs
    }

    /// The number of stages.
    pub closed spec fn order(&self) -> nat {
        self.order as nat
    }

    /// The memory of each stage, first stage first.
    pub closed spec fn stages(&self) -> Seq<OnePoleStage> {
        Seq::new(
            self.order as nat,
            |i: int| OnePoleStage { x1: self.x.history()[i], y1: self.y.history()[i] },
        )
    }

    /// There is one stage for each unit of the order, at all times.
    pub proof fn one_stage_for_each_order(&self)
        ensures
            self.stages().len() == self.order(),
    {
    }

    /// A filter at rest. `order` defaults to 1; an order of zero or a sampling
    /// rate that is not positive is an invalid configuration.
    pub fn new(fs: Sample, order: Option<usize>) -> (r: Result<Self, FilterError>)
        ensures
            (order == Some(0usize) || !is_positive(fs)) ==> r == Err::<Self, FilterError>(
                FilterError::InvalidConfiguration,
            ),
            !(order == Some(0usize) || !is_positive(fs)) ==> r is Ok,
            r matches Ok(f) ==> {
                &&& f.wf()
                &&& f.sampling_rate() == fs
                &&& f.order() == (match order {
                    Some(n) => n as nat,
                    None => 1,
                })
                &&& f.stages() == one_pole_rest(f.order())
            },
    {
        let filt_order: usize = match order {
            Some(order_value) => order_value,
            None => 1,
        };
        if !positive(fs) {
            return Err(FilterError::InvalidConfiguration);
        }
        let x = match DelayLine::new(filt_order) {
            Ok(line) => line,
            Err(e) => { return Err(e); },
        };
        let y = match DelayLine::new(filt_order) {
            Ok(line) => line,
            Err(e) => { return Err(e); },
        };
        let f = Self { fs, x, y, order: filt_order };
        assert(f.stages() =~= one_pole_rest(f.order()));
        Ok(f)
    }

    /// Designs the topology that `mode` names (`"lp"` or `"hp"`) for the corner
    /// frequency `fc`, and returns `(b0, b1, a1)`. The filter is left as it
    /// was. A name that selects no topology is an invalid argument.
    pub fn design_filter<A: Fn(Op) -> Sample>(&mut self, mode: &str, fc: Sample, arith: &A) -> (r:
        Result<(Sample, Sample, Sample), FilterError>)
        requires
            accepts_all(arith),
        ensures
            *final(self) == *old(self),
            OnePoleFilterType::named(mode@) is None ==> r == Err::<
                (Sample, Sample, Sample),
                FilterError,
            >(FilterError::InvalidArgument),
            OnePoleFilterType::named(mode@) matches Some(t) ==> forall|m: Model| #[trigger]
                computes(arith, m) ==> r == Ok::<(Sample, Sample, Sample), FilterError>(
                    one_pole_design(m, t, fc, old(self).sampling_rate()).tuple(),
                ),
            OnePoleFilterType::named(mode@) is Some ==> r is Ok,
    {
        let topology = match OnePoleFilterType::from_name(mode) {
            Ok(t) => t,
            Err(e) => { return Err(e); },
        };
        let mut design_filter = DesignOnePoleFilter::new(
            FilterType::OnePoleType(topology),
            fc,
            self.fs,
            arith,
        );
        design_filter.coeffs(arith);
        Ok((design_filter.filt_coeffs.b0, design_filter.filt_coeffs.b1, design_filter.filt_coeffs.a1))
    }

    /// Filters one sample: it passes through the stages in order, each stage
    /// reading and then replacing its own memory.
    pub fn filt_sample<A: Fn(Op) -> Sample>(
        &mut self,
        sample: Sample,
        coeffs: (Sample, Sample, Sample),
        arith: &A,
    ) -> (y: Sample)
        requires
            old(self).wf(),
            accepts_all(arith),
        ensures
            final(self).wf(),
            final(self).sampling_rate() == old(self).sampling_rate(),
            final(self).order() == old(self).order(),
            forall|m: Model| #[trigger]
                computes(arith, m) ==> (final(self).stages(), y) == cascade(
                    one_pole_section(m, OnePoleCoeffs::of(coeffs)),
                    old(self).stages(),
                    sample,
                ),
    {
        let c = OnePoleCoeffs { b0: coeffs.0, b1: coeffs.1, a1: coeffs.2 };
        let ghost before = old(self).stages();
        let ghost x_old = old(self).x.history();
        let ghost y_old = old(self).y.history();
        let ghost n = self.order as int;
        let ghost mut xs: Seq<Sample> = Seq::empty();
        let ghost mut ys: Seq<Sample> = Seq::empty();
        let mut x: Sample = sample;
        let mut y: Sample = ZERO;
        let mut k: usize = 0;
        proof {
            self.x.lemma_wf();
            self.y.lemma_wf();
            write_one_more(x_old, xs, ZERO);
            write_one_more(y_old, ys, ZERO);
        }
        while k < self.order
            invariant
                self.x.wf(),
                self.y.wf(),
                self.fs == old(self).fs,
                self.order == old(self).order,
                n == self.order,
                n >= 1,
                x_old.len() == n,
                y_old.len() == n,
                k <= n,
                xs.len() == k,
                ys.len() == k,
                accepts_all(arith),
                c == OnePoleCoeffs::of(coeffs),
                before == old(self).stages(),
                x_old == old(self).x.history(),
                y_old == old(self).y.history(),
                self.x.history() == after_writes(x_old, xs),
                self.y.history() == after_writes(y_old, ys),
                k > 0 ==> y == x,
                forall|m: Model| #[trigger]
                    computes(arith, m) ==> {
                        &&& x == signal_at(one_pole_section(m, c), before, sample, k as int)
                        &&& forall|i: int|
                            0 <= i < k ==> (OnePoleStage { x1: xs[i], y1: ys[i] })
                                == one_pole_section(m, c)(
                                before[i],
                                #[trigger] signal_at(one_pole_section(m, c), before, sample, i),
                            ).0
                    },
            decreases n - k,
        {
            let ghost x_in = x;
            proof {
                register_delays(x_old, xs, 0);
                register_delays(y_old, ys, 0);
            }
            let x1: Sample = self.x.read();
            let y1: Sample = self.y.read();
            y = one_pole_output_of(arith, &c, x, x1, y1);
            self.x.write_and_advance(&x);
            self.y.write_and_advance(&y);
            proof {
                write_one_more(x_old, xs, x);
                write_one_more(y_old, ys, y);
                assert(before[k as int] == OnePoleStage { x1, y1 });
                assert forall|m: Model| #[trigger] computes(arith, m) implies {
                    &&& y == signal_at(one_pole_section(m, c), before, sample, k + 1)
                    &&& forall|i: int|
                        0 <= i < k + 1 ==> (OnePoleStage { x1: xs.push(x_in)[i], y1: ys.push(y)[i] })
                            == one_pole_section(m, c)(
                            before[i],
                            #[trigger] signal_at(one_pole_section(m, c), before, sample, i),
                        ).0
                } by {
                    let sec = one_pole_section(m, c);
                    assert(x_in == signal_at(sec, before, sample, k as int));
                    assert(y == sec(before[k as int], x_in).1);
                    assert(y == signal_at(sec, before, sample, k + 1));
                }
                xs = xs.push(x);
                ys = ys.push(y);
            }
            x = y;
            k += 1;
        }
        proof {
            let after = self.stages();
            assert forall|i: int| 0 <= i < n implies #[trigger] after[i] == (OnePoleStage {
                x1: xs[i],
                y1: ys[i],
            }) by {
                register_delays(x_old, xs, i);
                register_delays(y_old, ys, i);
            }
            assert forall|m: Model| #[trigger] computes(arith, m) implies (self.stages(), y)
                == cascade(one_pole_section(m, c), before, sample) by {
                replaced_stages_are_the_cascade(one_pole_section(m, c), before, sample, after);
            }
        }
        y
    }

    /// Filters a buffer: the samples in order, each starting from the state
    /// that the one before it left. The result has one sample for each input.
    pub fn filt_frame<A: Fn(Op) -> Sample>(
        &mut self,
        frame: Vec<Sample>,
        coeffs: (Sample, Sample, Sample),
        arith: &A,
    ) -> (out: Vec<Sample>)
        requires
            old(self).wf(),
            accepts_all(arith),
        ensures
            final(self).wf(),
            final(self).sampling_rate() == old(self).sampling_rate(),
            final(self).order() == old(self).order(),
            out@.len() == frame@.len(),
            frame@.len() == 0 ==> final(self).stages() == old(self).stages(),
            forall|m: Model| #[trigger]
                computes(arith, m) ==> (final(self).stages(), out@) == run(
                    cascade_step(one_pole_section(m, OnePoleCoeffs::of(coeffs))),
                    old(self).stages(),
                    frame@,
                ),
    {
        let mut out: Vec<Sample> = Vec::new();
        let mut i: usize = 0;
        while i < frame.len()
            invariant
                self.wf(),
                accepts_all(arith),
                self.sampling_rate() == old(self).sampling_rate(),
                self.order() == old(self).order(),
                i <= frame.len(),
                out@.len() == i,
                i == 0 ==> self.stages() == old(self).stages(),
                forall|m: Model| #[trigger]
                    computes(arith, m) ==> (self.stages(), out@) == run(
                        cascade_step(one_pole_section(m, OnePoleCoeffs::of(coeffs))),
                        old(self).stages(),
                        frame@.take(i as int),
                    ),
            decreases frame.len() - i,
        {
            let ghost stages_before = self.stages();
            let ghost out_before = out@;
            let y: Sample = self.filt_sample(frame[i], coeffs, arith);
            out.push(y);
            proof {
                assert forall|m: Model| #[trigger] computes(arith, m) implies (self.stages(), out@)
                    == run(
                    cascade_step(one_pole_section(m, OnePoleCoeffs::of(coeffs))),
                    old(self).stages(),
                    frame@.take(i + 1),
                ) by {
                    run_one_more(
                        cascade_step(one_pole_section(m, OnePoleCoeffs::of(coeffs))),
                        old(self).stages(),
                        frame@,
                        i as int,
                    );
                }
            }
            i += 1;
        }
        proof {
            assert(frame@.take(frame@.len() as int) =~= frame@);
        }
        out
    }

    /// Puts every stage back to rest. The sampling rate and the order stay.
    pub fn clear_delayed_samples_cache(&mut self)
        requires
            old(self).wf(),
        ensures
            final(self).wf(),
            final(self).sampling_rate() == old(self).sampling_rate(),
            final(self).order() == old(self).order(),
            final(self).stages() == one_pole_rest(old(self).order()),
    {
        self.x.clear();
        self.y.clear();
        assert(self.stages() =~= one_pole_rest(old(self).order()));
    }
}

} // verus!
