//! The narrow-band resonator: a second-order band-pass or notch of a given
//! bandwidth, cascaded to any order. Its recurrence adds the feedback terms,
//! where the other second-order families subtract them.
use vstd::prelude::*;
use crate::arithmetic::{
    accepts_all, angular, angular_of, computes, cos_of, cosine, difference, from_count,
    is_positive, minus, natural, negate, negation, over, plus, positive, power, product, quotient,
    raise, sum, times, Model, Op, Sample, ZERO,
};
use crate::biquadeq::{biquad_rest, BiquadMemory};
use crate::cascade::{
    cascade, cascade_step, replaced_stages_are_the_cascade, run, run_one_more, signal_at,
};
use crate::coeffstruct::BiquadCoeffs;
use crate::delayline::{after_writes, register_delays, write_one_more, DelayLine};
use crate::error::FilterError;
use crate::filtertype::{FilterType, NarrowFilterType};

verus! {

/// The pole radius `r = 1 - 3 * bw / fs`.
pub open spec fn narrow_radius(m: Model, bw: Sample, fs: Sample) -> Sample {
    difference(m, natural(m, 1), quotient(m, product(m, natural(m, 3), bw), fs))
}

/// The gain `k = (1 - 2 r cos + r^2) / (2 - 2 cos)`.
pub open spec fn narrow_gain(m: Model, cos: Sample, r: Sample) -> Sample {
    quotient(
        m,
        sum(
            m,
            difference(m, natural(m, 1), product(m, product(m, natural(m, 2), r), cos)),
            power(m, r, natural(m, 2)),
        ),
        difference(m, natural(m, 2), product(m, natural(m, 2), cos)),
    )
}

/// The coefficients of a topology from the derived quantities, with `a0 = 1`,
/// `a1 = 2 r cos` and `a2 = -r^2`.
///
/// Band-pass: `b0 = 1 - k`, `b1 = 2 (k - r) cos`, `b2 = r^2 - k`.
/// Notch: `b0 = k`, `b1 = -2 k cos`, `b2 = k`.
pub open spec fn narrow_coeffs(
    m: Model,
    topology: NarrowFilterType,
    cos: Sample,
    k: Sample,
    r: Sample,
) -> BiquadCoeffs {
    let a1 = product(m, product(m, natural(m, 2), r), cos);
    let a2 = negation(m, power(m, r, natural(m, 2)));
    match topology {
        NarrowFilterType::Bp => BiquadCoeffs {
            b0: difference(m, natural(m, 1), k),
            b1: product(m, product(m, natural(m, 2), difference(m, k, r)), cos),
            b2: difference(m, power(m, r, natural(m, 2)), k),
            a0: natural(m, 1),
            a1,
            a2,
        },
        NarrowFilterType::Notch => BiquadCoeffs {
            b0: k,
            b1: product(m, product(m, negation(m, natural(m, 2)), k), cos),
            b2: k,
            a0: natural(m, 1),
            a1,
            a2,
        },
    }
}

/// The coefficients of a topology for the centre frequency `fc`, the sampling
/// rate `fs` and the bandwidth `bw`, with `cos = cos(2 * pi * fc / fs)`.
pub open spec fn narrow_design(
    m: Model,
    topology: NarrowFilterType,
    fc: Sample,
    fs: Sample,
    bw: Sample,
) -> BiquadCoeffs {
    let cos = cosine(m, angular(m, fc, fs));
    let r = narrow_radius(m, bw, fs);
    narrow_coeffs(m, topology, cos, narrow_gain(m, cos, r), r)
}

/// The recurrence `y = b0 x + b1 x1 + b2 x2 + a1 y1 + a2 y2`.
pub open spec fn narrow_output(
    m: Model,
    c: BiquadCoeffs,
    x: Sample,
    x1: Sample,
    x2: Sample,
    y1: Sample,
    y2: Sample,
) -> Sample {
    sum(
        m,
        sum(
            m,
            sum(m, sum(m, product(m, c.b0, x), product(m, c.b1, x1)), product(m, c.b2, x2)),
            product(m, c.a1, y1),
        ),
        product(m, c.a2, y2),
    )
}

/// One sample through one stage: the output of the recurrence, and the memory
/// shifted by one sample.
pub open spec fn narrow_section(m: Model, c: BiquadCoeffs) -> spec_fn(BiquadMemory, Sample) -> (
    BiquadMemory,
    Sample,
) {
    |s: BiquadMemory, x: Sample|
        {
            let y = narrow_output(m, c, x, s.x1, s.x2, s.y1, s.y2);
            (BiquadMemory { x1: x, x2: s.x1, y1: y, y2: s.y1 }, y)
        }
}

/// The stages of a filter that has seen no sample.
pub open spec fn narrow_rest(order: nat) -> Seq<BiquadMemory> {
    Seq::new(order, |i: int| biquad_rest())
}

/// The design step of the family.
pub struct DesignNarrowFilter {
    /// The topology that was asked for.
    pub mode: FilterType,
    /// The coefficients; zero until `coeffs` has filled them in.
    pub filt_coeffs: BiquadCoeffs,
    pub theta_cosine: Sample,
    pub k: Sample,
    pub r: Sample,
}

impl DesignNarrowFilter {
    /// Computes the derived quantities. The coefficients are zero until
    /// `coeffs` is called.
    pub fn new<A: Fn(Op) -> Sample>(
        mode: FilterType,
        fc: Sample,
        fs: Sample,
        bw: Sample,
        arith: &A,
    ) -> (d: Self)
        requires
            accepts_all(arith),
        ensures
            d.mode == mode,
            d.filt_coeffs == BiquadCoeffs::zeros(),
            forall|m: Model| #[trigger]
                computes(arith, m) ==> {
                    &&& d.theta_cosine == cosine(m, angular(m, fc, fs))
                    &&& d.r == narrow_radius(m, bw, fs)
                    &&& d.k == narrow_gain(m, d.theta_cosine, d.r)
                },
    {
        let filt_coeffs = BiquadCoeffs::new();
        let w: Sample = angular_of(arith, fc, fs);
        let theta_cosine: Sample = cos_of(arith, w);
        let one: Sample = from_count(arith, 1);
        let two: Sample = from_count(arith, 2);
        let three: Sample = from_count(arith, 3);
        let three_bw: Sample = times(arith, three, bw);
        let ratio: Sample = over(arith, three_bw, fs);
        let r: Sample = minus(arith, one, ratio);
        let two_r: Sample = times(arith, two, r);
        let two_r_cos: Sample = times(arith, two_r, theta_cosine);
        let head: Sample = minus(arith, one, two_r_cos);
        let r_squared: Sample = raise(arith, r, two);
        let numerator: Sample = plus(arith, head, r_squared);
        let two_cos: Sample = times(arith, two, theta_cosine);
        let denominator: Sample = minus(arith, two, two_cos);
        let k: Sample = over(arith, numerator, denominator);
        Self { mode, filt_coeffs, theta_cosine, k, r }
    }

    /// Fills in the coefficients of the topology. A topology of another family
    /// leaves them as they are.
    pub fn coeffs<A: Fn(Op) -> Sample>(&mut self, arith: &A)
        requires
            accepts_all(arith),
        ensures
            final(self).mode == old(self).mode,
            final(self).theta_cosine == old(self).theta_cosine,
            final(self).k == old(self).k,
            final(self).r == old(self).r,
            old(self).mode matches FilterType::NarrowType(t) ==> forall|m: Model| #[trigger]
                computes(arith, m) ==> final(self).filt_coeffs == narrow_coeffs(
                    m,
                    t,
                    old(self).theta_cosine,
                    old(self).k,
                    old(self).r,
                ),
            !(old(self).mode is NarrowType) ==> final(self).filt_coeffs == old(self).filt_coeffs,
    {
        match self.mode {
            FilterType::NarrowType(NarrowFilterType::Bp) => {
                let one: Sample = from_count(arith, 1);
                let two: Sample = from_count(arith, 2);
                let b0: Sample = minus(arith, one, self.k);
                let spread: Sample = minus(arith, self.k, self.r);
                let two_spread: Sample = times(arith, two, spread);
                let b1: Sample = times(arith, two_spread, self.theta_cosine);
                let r_squared: Sample = raise(arith, self.r, two);
                let b2: Sample = minus(arith, r_squared, self.k);
                let two_r: Sample = times(arith, two, self.r);
                let a1: Sample = times(arith, two_r, self.theta_cosine);
                let a2: Sample = negate(arith, r_squared);
                self.filt_coeffs.set_coeffs((b0, b1, b2, one, a1, a2))
            },
            FilterType::NarrowType(NarrowFilterType::Notch) => {
                let one: Sample = from_count(arith, 1);
                let two: Sample = from_count(arith, 2);
                let minus_two: Sample = negate(arith, two);
                let b0: Sample = self.k;
                let minus_two_k: Sample = times(arith, minus_two, self.k);
                let b1: Sample = times(arith, minus_two_k, self.theta_cosine);
                let b2: Sample = self.k;
                let two_r: Sample = times(arith, two, self.r);
                let a1: Sample = times(arith, two_r, self.theta_cosine);
                let r_squared: Sample = raise(arith, self.r, two);
                let a2: Sample = negate(arith, r_squared);
                self.filt_coeffs.set_coeffs((b0, b1, b2, one, a1, a2))
            },
            _ => {},
        }
    }
}

/// Evaluates the recurrence of one stage.
pub fn narrow_output_of<A: Fn(Op) -> Sample>(
    arith: &A,
    c: &BiquadCoeffs,
    x: Sample,
    x1: Sample,
    x2: Sample,
    y1: Sample,
    y2: Sample,
) -> (y: Sample)
    requires
        accepts_all(arith),
    ensures
        forall|m: Model| #[trigger]
            computes(arith, m) ==> y == narrow_output(m, *c, x, x1, x2, y1, y2),
{
    let t0: Sample = times(arith, c.b0, x);
    let t1: Sample = times(arith, c.b1, x1);
    let t2: Sample = times(arith, c.b2, x2);
    let q1: Sample = times(arith, c.a1, y1);
    let q2: Sample = times(arith, c.a2, y2);
    let s1: Sample = plus(arith, t0, t1);
    let s2: Sample = plus(arith, s1, t2);
    let s3: Sample = plus(arith, s2, q1);
    plus(arith, s3, q2)
}

/// A narrow-band resonator of a given order at a given sampling rate.
///
/// The registers `x1` and `y1` hold one sample for each stage, the registers
/// `x2` and `y2` two: a stage finds under their cursor what it wrote two
/// samples ago.
pub struct Narrow {
    fs: Sample,
    x1: DelayLine,
    x2: DelayLine,
    y1: DelayLine,
    y2: DelayLine,
    order: usize,
}

impl Narrow {
    /// The invariant of the type: registers of the lengths that the order
    /// asks for, and the newer half of each two-sample register equal to the
    /// one-sample register beside it.
    pub closed spec fn wf(&self) -> bool {
        &&& self.x1.wf()
        &&& self.x2.wf()
        &&& self.y1.wf()
        &&& self.y2.wf()
        &&& self.order >= 1
        &&& self.x1.len() == self.order
        &&& self.y1.len() == self.order
        &&& self.x2.len() == 2 * self.order
        &&& self.y2.len() == 2 * self.order
        &&& forall|i: int|
            0 <= i < self.order ==> self.x2.history()[self.order + i] == self.x1.history()[i]
        &&& forall|i: int|
            0 <= i < self.order ==> self.y2.history()[self.order + i] == self.y1.history()[i]
    }

    /// The sampling rate that the filter was made for.
    pub closed spec fn sampling_rate(&self) -> Sample {
        self.fs
    }

    /// The number of stages.
    pub closed spec fn order(&self) -> nat {
        self.order as nat
    }

    /// The memory of each stage, first stage first.
    pub closed spec fn stages(&self) -> Seq<BiquadMemory> {
        Seq::new(
            self.order as nat,
            |i: int|
                BiquadMemory {
                    x1: self.x1.history()[i],
                    x2: self.x2.history()[i],
                    y1: self.y1.history()[i],
                    y2: self.y2.history()[i],
                },
        )
    }

    /// There is one stage for each unit of the order, at all times.
    pub proof fn one_stage_for_each_order(&self)
        ensures
            self.stages().len() == self.order(),
    {
    }

    /// A filter at rest. `order` defaults to 1; an order of zero or a sampling
    /// rate that is not positive is an invalid configuration.
    pub fn new(fs: Sample, order: Option<usize>) -> (r: Result<Self, FilterError>)
        requires
            order matches Some(n) ==> 2 * n <= usize::MAX,
        ensures
            (order == Some(0usize) || !is_positive(fs)) ==> r == Err::<Self, FilterError>(
                FilterError::InvalidConfiguration,
            ),
            !(order == Some(0usize) || !is_positive(fs)) ==> r is Ok,
            r matches Ok(f) ==> {
                &&& f.wf()
                &&& f.sampling_rate() == fs
                &&& f.order() == (match order {
                    Some(n) => n as nat,
                    None => 1,
                })
                &&& f.stages() == narrow_rest(f.order())
            },
    {
        let filt_order: usize = match order {
            Some(order_value) => order_value,
            None => 1,
        };
        if !positive(fs) {
            return Err(FilterError::InvalidConfiguration);
        }
        let x1 = match DelayLine::new(filt_order) {
            Ok(line) => line,
            Err(e) => { return Err(e); },
        };
        let x2 = match DelayLine::new(2 * filt_order) {
            Ok(line) => line,
            Err(e) => { return Err(e); },
        };
        let y1 = match DelayLine::new(filt_order) {
            Ok(line) => line,
            Err(e) => { return Err(e); },
        };
        let y2 = match DelayLine::new(2 * filt_order) {
            Ok(line) => line,
            Err(e) => { return Err(e); },
        };
        let f = Self { fs, x1, x2, y1, y2, order: filt_order };
        assert(f.stages() =~= narrow_rest(f.order()));
        Ok(f)
    }

    /// Designs the topology that `mode` names (`"bp"` or `"notch"`) for the
    /// centre frequency `fc` and the bandwidth `bw`, and returns
    /// `(b0, b1, b2, a0, a1, a2)`. A name that selects no topology is an
    /// invalid argument.
    pub fn design_filter<A: Fn(Op) -> Sample>(
        &self,
        mode: &str,
        fc: Sample,
        bw: Sample,
        arith: &A,
    ) -> (r: Result<(Sample, Sample, Sample, Sample, Sample, Sample), FilterError>)
        requires
            accepts_all(arith),
        ensures
            NarrowFilterType::named(mode@) is None ==> r == Err::<
                (Sample, Sample, Sample, Sample, Sample, Sample),
                FilterError,
            >(FilterError::InvalidArgument),
            NarrowFilterType::named(mode@) is Some ==> r is Ok,
            NarrowFilterType::named(mode@) matches Some(t) ==> forall|m: Model| #[trigger]
                computes(arith, m) ==> r == Ok::<
                    (Sample, Sample, Sample, Sample, Sample, Sample),
                    FilterError,
                >(narrow_design(m, t, fc, self.sampling_rate(), bw).tuple()),
    {
        let topology = match NarrowFilterType::from_name(mode) {
            Ok(t) => t,
            Err(e) => { return Err(e); },
        };
        let mut design_filter = DesignNarrowFilter::new(
            FilterType::NarrowType(topology),
            fc,
            self.fs,
            bw,
            arith,
        );
        design_filter.coeffs(arith);
        let coeffs = design_filter.filt_coeffs;
        Ok((coeffs.b0, coeffs.b1, coeffs.b2, coeffs.a0, coeffs.a1, coeffs.a2))
    }

    /// Filters one sample: it passes through the stages in order, each stage
    /// reading and then shifting its own memory.
    pub fn filt_sample<A: Fn(Op) -> Sample>(
        &mut self,
        sample: Sample,
        coeffs: (Sample, Sample, Sample, Sample, Sample, Sample),
        arith: &A,
    ) -> (y: Sample)
        requires
            old(self).wf(),
            accepts_all(arith),
        ensures
            final(self).wf(),
            final(self).sampling_rate() == old(self).sampling_rate(),
            final(self).order() == old(self).order(),
            forall|m: Model| #[trigger]
                computes(arith, m) ==> (final(self).stages(), y) == cascade(
                    narrow_section(m, BiquadCoeffs::of(coeffs)),
                    old(self).stages(),
                    sample,
                ),
    {
        let c = BiquadCoeffs {
            b0: coeffs.0,
            b1: coeffs.1,
            b2: coeffs.2,
            a0: coeffs.3,
            a1: coeffs.4,
            a2: coeffs.5,
        };
        let ghost before = old(self).stages();
        let ghost x1_old = old(self).x1.history();
        let ghost x2_old = old(self).x2.history();
        let ghost y1_old = old(self).y1.history();
        let ghost y2_old = old(self).y2.history();
        let ghost n = self.order as int;
        let ghost mut xs: Seq<Sample> = Seq::empty();
        let ghost mut ys: Seq<Sample> = Seq::empty();
        let mut x: Sample = sample;
        let mut y: Sample = ZERO;
        let mut k: usize = 0;
        proof {
            self.x1.lemma_wf();
            self.x2.lemma_wf();
            self.y1.lemma_wf();
            self.y2.lemma_wf();
            write_one_more(x1_old, xs, ZERO);
            write_one_more(x2_old, xs, ZERO);
            write_one_more(y1_old, ys, ZERO);
            write_one_more(y2_old, ys, ZERO);
        }
        while k < self.order
            invariant
                self.x1.wf(),
                self.x2.wf(),
                self.y1.wf(),
                self.y2.wf(),
                self.fs == old(self).fs,
                self.order == old(self).order,
                n == self.order,
                n >= 1,
                x1_old.len() == n,
                y1_old.len() == n,
                x2_old.len() == 2 * n,
                y2_old.len() == 2 * n,
                k <= n,
                xs.len() == k,
                ys.len() == k,
                accepts_all(arith),
                c == BiquadCoeffs::of(coeffs),
                before == old(self).stages(),
                x1_old == old(self).x1.history(),
                x2_old == old(self).x2.history(),
                y1_old == old(self).y1.history(),
                y2_old == old(self).y2.history(),
                self.x1.history() == after_writes(x1_old, xs),
                self.x2.history() == after_writes(x2_old, xs),
                self.y1.history() == after_writes(y1_old, ys),
                self.y2.history() == after_writes(y2_old, ys),
                k > 0 ==> y == x,
                forall|m: Model| #[trigger]
                    computes(arith, m) ==> {
                        &&& x == signal_at(narrow_section(m, c), before, sample, k as int)
                        &&& forall|i: int|
                            0 <= i < k ==> (BiquadMemory {
                                x1: xs[i],
                                x2: before[i].x1,
                                y1: ys[i],
                                y2: before[i].y1,
                            }) == narrow_section(m, c)(
                                before[i],
                                #[trigger] signal_at(narrow_section(m, c), before, sample, i),
                            ).0
                    },
            decreases n - k,
        {
            let ghost x_in = x;
            proof {
                register_delays(x1_old, xs, 0);
                register_delays(x2_old, xs, 0);
                register_delays(y1_old, ys, 0);
                register_delays(y2_old, ys, 0);
            }
            let x1: Sample = self.x1.read();
            let x2: Sample = self.x2.read();
            let y1: Sample = self.y1.read();
            let y2: Sample = self.y2.read();
            y = narrow_output_of(arith, &c, x, x1, x2, y1, y2);
            self.x1.write_and_advance(&x);
            self.x2.write_and_advance(&x);
            self.y1.write_and_advance(&y);
            self.y2.write_and_advance(&y);
            proof {
                write_one_more(x1_old, xs, x);
                write_one_more(x2_old, xs, x);
                write_one_more(y1_old, ys, y);
                write_one_more(y2_old, ys, y);
                assert(before[k as int] == BiquadMemory { x1, x2, y1, y2 });
                assert forall|m: Model| #[trigger] computes(arith, m) implies {
                    &&& y == signal_at(narrow_section(m, c), before, sample, k + 1)
                    &&& forall|i: int|
                        0 <= i < k + 1 ==> (BiquadMemory {
                            x1: xs.push(x_in)[i],
                            x2: before[i].x1,
                            y1: ys.push(y)[i],
                            y2: before[i].y1,
                        }) == narrow_section(m, c)(
                            before[i],
                            #[trigger] signal_at(narrow_section(m, c), before, sample, i),
                        ).0
                } by {
                    let sec = narrow_section(m, c);
                    assert(x_in == signal_at(sec, before, sample, k as int));
                    assert(y == sec(before[k as int], x_in).1);
                    assert(y == signal_at(sec, before, sample, k + 1));
                }
                xs = xs.push(x);
                ys = ys.push(y);
            }
            x = y;
            k += 1;
        }
        proof {
            let after = self.stages();
            assert forall|i: int| 0 <= i < n implies #[trigger] after[i] == (BiquadMemory {
                x1: xs[i],
                x2: before[i].x1,
                y1: ys[i],
                y2: before[i].y1,
            }) && self.x2.history()[n + i] == self.x1.history()[i] && self.y2.history()[n + i]
                == self.y1.history()[i] by {
                register_delays(x1_old, xs, i);
                register_delays(y1_old, ys, i);
                register_delays(x2_old, xs, i);
                register_delays(y2_old, ys, i);
                register_delays(x2_old, xs, n + i);
                register_delays(y2_old, ys, n + i);
            }
            assert forall|m: Model| #[trigger] computes(arith, m) implies (self.stages(), y)
                == cascade(narrow_section(m, c), before, sample) by {
                replaced_stages_are_the_cascade(narrow_section(m, c), before, sample, after);
            }
        }
        y
    }

    /// Filters a buffer: the samples in order, each starting from the state
    /// that the one before it left. The result has one sample for each input.
    pub fn filt_frame<A: Fn(Op) -> Sample>(
        &mut self,
        frame: Vec<Sample>,
        coeffs: (Sample, Sample, Sample, Sample, Sample, Sample),
        arith: &A,
    ) -> (out: Vec<Sample>)
        requires
            old(self).wf(),
            accepts_all(arith),
        ensures
            final(self).wf(),
            final(self).sampling_rate() == old(self).sampling_rate(),
            final(self).order() == old(self).order(),
            out@.len() == frame@.len(),
            frame@.len() == 0 ==> final(self).stages() == old(self).stages(),
            forall|m: Model| #[trigger]
                computes(arith, m) ==> (final(self).stages(), out@) == run(
                    cascade_step(narrow_section(m, BiquadCoeffs::of(coeffs))),
                    old(self).stages(),
                    frame@,
                ),
    {
        let mut out: Vec<Sample> = Vec::new();
        let mut i: usize = 0;
        while i < frame.len()
            invariant
                self.wf(),
                accepts_all(arith),
                self.sampling_rate() == old(self).sampling_rate(),
                self.order() == old(self).order(),
                i <= frame.len(),
                out@.len() == i,
                i == 0 ==> self.stages() == old(self).stages(),
                forall|m: Model| #[trigger]
                    computes(arith, m) ==> (self.stages(), out@) == run(
                        cascade_step(narrow_section(m, BiquadCoeffs::of(coeffs))),
                        old(self).stages(),
                        frame@.take(i as int),
                    ),
            decreases frame.len() - i,
        {
            let y: Sample = self.filt_sample(frame[i], coeffs, arith);
            out.push(y);
            proof {
                assert forall|m: Model| #[trigger] computes(arith, m) implies (self.stages(), out@)
                    == run(
                    cascade_step(narrow_section(m, BiquadCoeffs::of(coeffs))),
                    old(self).stages(),
                    frame@.take(i + 1),
                ) by {
                    run_one_more(
                        cascade_step(narrow_section(m, BiquadCoeffs::of(coeffs))),
                        old(self).stages(),
                        frame@,
                        i as int,
                    );
                }
            }
            i += 1;
        }
        proof {
            assert(frame@.take(frame@.len() as int) =~= frame@);
        }
        out
    }

    /// Puts every stage back to rest. The sampling rate and the order stay.
    pub fn clear_delayed_samples_cache(&mut self)
        requires
            old(self).wf(),
        ensures
            final(self).wf(),
            final(self).sampling_rate() == old(self).sampling_rate(),
            final(self).order() == old(self).order(),
            final(self).stages() == narrow_rest(old(self).order()),
    {
        self.x1.clear();
        self.x2.clear();
        self.y1.clear();
        self.y2.clear();
        assert(self.stages() =~= narrow_rest(old(self).order()));
    }
}

} // verus!
