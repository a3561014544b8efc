//! The biquad family: second-order sections in the cookbook form, with a
//! divisor `a0` that is kept beside the other five coefficients.
use vstd::prelude::*;
use crate::arithmetic::{
    accepts_all, angular, angular_of, computes, cos_of, cosine, difference, from_count,
    is_positive, minus, natural, negate, negation, over, plus, positive, power, product, quotient,
    raise, sin_of, sine, sqrt_of, square_root, sum, times, Model, Op, Sample, ZERO,
};
use crate::cascade::{run, run_one_more};
use crate::coeffstruct::BiquadCoeffs;
use crate::error::FilterError;
use crate::filtertype::{BiquadFilterType, FilterType};

verus! {

/// `alpha = sin / (2 * q)`.
pub open spec fn biquad_alpha(m: Model, sin: Sample, q: Sample) -> Sample {
    quotient(m, sin, product(m, natural(m, 2), q))
}

/// The linear gain `A = 10 ^ (db / 40)`.
pub open spec fn biquad_gain(m: Model, db: Sample) -> Sample {
    power(m, natural(m, 10), quotient(m, db, natural(m, 40)))
}

/// `beta = sqrt(A) / q`.
pub open spec fn biquad_beta(m: Model, a: Sample, q: Sample) -> Sample {
    quotient(m, square_root(m, a), q)
}

/// `-2 * cos`, the middle coefficient of most denominators.
pub open spec fn minus_two_cos(m: Model, cos: Sample) -> Sample {
    product(m, negation(m, natural(m, 2)), cos)
}

/// The denominator that all topologies without a gain share:
/// `a0 = 1 + alpha`, `a1 = -2 * cos`, `a2 = 1 - alpha`; with the numerator given.
pub open spec fn with_plain_denominator(
    m: Model,
    b0: Sample,
    b1: Sample,
    b2: Sample,
    cos: Sample,
    alpha: Sample,
) -> BiquadCoeffs {
    BiquadCoeffs {
        b0,
        b1,
        b2,
        a0: sum(m, natural(m, 1), alpha),
        a1: minus_two_cos(m, cos),
        a2: difference(m, natural(m, 1), alpha),
    }
}

/// The peaking equaliser:
/// `b0 = 1 + alpha * A`, `b1 = -2 * cos`, `b2 = 1 - alpha * A`,
/// `a0 = 1 + alpha / A`, `a1 = -2 * cos`, `a2 = 1 - alpha / A`.
pub open spec fn peaking_coeffs(m: Model, cos: Sample, alpha: Sample, a: Sample) -> BiquadCoeffs {
    BiquadCoeffs {
        b0: sum(m, natural(m, 1), product(m, alpha, a)),
        b1: minus_two_cos(m, cos),
        b2: difference(m, natural(m, 1), product(m, alpha, a)),
        a0: sum(m, natural(m, 1), quotient(m, alpha, a)),
        a1: minus_two_cos(m, cos),
        a2: difference(m, natural(m, 1), quotient(m, alpha, a)),
    }
}

/// `(A + 1) - (A - 1) * cos`.
pub open spec fn shelf_minus(m: Model, a: Sample, cos: Sample) -> Sample {
    difference(
        m,
        sum(m, a, natural(m, 1)),
        product(m, difference(m, a, natural(m, 1)), cos),
    )
}

/// `(A + 1) + (A - 1) * cos`.
pub open spec fn shelf_plus(m: Model, a: Sample, cos: Sample) -> Sample {
    sum(m, sum(m, a, natural(m, 1)), product(m, difference(m, a, natural(m, 1)), cos))
}

/// `(A - 1) - (A + 1) * cos`.
pub open spec fn shelf_cross_minus(m: Model, a: Sample, cos: Sample) -> Sample {
    difference(
        m,
        difference(m, a, natural(m, 1)),
        product(m, sum(m, a, natural(m, 1)), cos),
    )
}

/// `(A - 1) + (A + 1) * cos`.
pub open spec fn shelf_cross_plus(m: Model, a: Sample, cos: Sample) -> Sample {
    sum(m, difference(m, a, natural(m, 1)), product(m, sum(m, a, natural(m, 1)), cos))
}

/// The low shelf:
/// `b0 = A * ((A+1) - (A-1) cos + beta sin)`, `b1 = 2 A * ((A-1) - (A+1) cos)`,
/// `b2 = A * ((A+1) - (A-1) cos - beta sin)`,
/// `a0 = (A+1) + (A-1) cos + beta sin`, `a1 = -2 * ((A-1) + (A+1) cos)`,
/// `a2 = (A+1) + (A-1) cos - beta sin`.
pub open spec fn low_shelf_coeffs(m: Model, sin: Sample, cos: Sample, a: Sample, beta: Sample) -> BiquadCoeffs {
    let bs = product(m, beta, sin);
    BiquadCoeffs {
        b0: product(m, a, sum(m, shelf_minus(m, a, cos), bs)),
        b1: product(m, product(m, natural(m, 2), a), shelf_cross_minus(m, a, cos)),
        b2: product(m, a, difference(m, shelf_minus(m, a, cos), bs)),
        a0: sum(m, shelf_plus(m, a, cos), bs),
        a1: product(m, negation(m, natural(m, 2)), shelf_cross_plus(m, a, cos)),
        a2: difference(m, shelf_plus(m, a, cos), bs),
    }
}

/// The high shelf:
/// `b0 = A * ((A+1) + (A-1) cos + beta sin)`, `b1 = -2 A * ((A-1) + (A+1) cos)`,
/// `b2 = A * ((A+1) + (A-1) cos - beta sin)`,
/// `a0 = (A+1) - (A-1) cos + beta sin`, `a1 = 2 * ((A-1) - (A+1) cos)`,
/// `a2 = (A+1) - (A-1) cos - beta sin`.
pub open spec fn high_shelf_coeffs(m: Model, sin: Sample, cos: Sample, a: Sample, beta: Sample) -> BiquadCoeffs {
    let bs = product(m, beta, sin);
    BiquadCoeffs {
        b0: product(m, a, sum(m, shelf_plus(m, a, cos), bs)),
        b1: product(m, product(m, negation(m, natural(m, 2)), a), shelf_cross_plus(m, a, cos)),
        b2: product(m, a, difference(m, shelf_plus(m, a, cos), bs)),
        a0: sum(m, shelf_minus(m, a, cos), bs),
        a1: product(m, natural(m, 2), shelf_cross_minus(m, a, cos)),
        a2: difference(m, shelf_minus(m, a, cos), bs),
    }
}

/// The coefficients of a topology from the derived quantities.
///
/// | topology | b0 | b1 | b2 |
/// |---|---|---|---|
/// | low-pass | `(1 - cos) / 2` | `1 - cos` | `b0` |
/// | high-pass | `(1 + cos) / 2` | `-(1 + cos)` | `b0` |
/// | band-pass, 0 dB peak | `alpha` | `0` | `-alpha` |
/// | band-pass, constant skirt | `sin / 2` | `0` | `-sin / 2` |
/// | notch | `1` | `-2 cos` | `1` |
/// | all-pass | `1 - alpha` | `-2 cos` | `1 + alpha` |
///
/// all with `a0 = 1 + alpha`, `a1 = -2 cos`, `a2 = 1 - alpha`. The peaking
/// equaliser and the shelves need the gain; without it all six are zero.
pub open spec fn biquad_coeffs(
    m: Model,
    topology: BiquadFilterType,
    sin: Sample,
    cos: Sample,
    alpha: Sample,
    a: Option<Sample>,
    beta: Option<Sample>,
) -> BiquadCoeffs {
    match topology {
        BiquadFilterType::Lp => {
            let c = difference(m, natural(m, 1), cos);
            let b0 = quotient(m, c, natural(m, 2));
            with_plain_denominator(m, b0, c, b0, cos, alpha)
        },
        BiquadFilterType::Hp => {
            let c = sum(m, natural(m, 1), cos);
            let b0 = quotient(m, c, natural(m, 2));
            with_plain_denominator(m, b0, negation(m, c), b0, cos, alpha)
        },
        BiquadFilterType::Bp0dB => with_plain_denominator(
            m,
            alpha,
            ZERO,
            negation(m, alpha),
            cos,
            alpha,
        ),
        BiquadFilterType::Bpsg => {
            let b0 = quotient(m, sin, natural(m, 2));
            with_plain_denominator(m, b0, ZERO, negation(m, b0), cos, alpha)
        },
        BiquadFilterType::Notch => with_plain_denominator(
            m,
            natural(m, 1),
            minus_two_cos(m, cos),
            natural(m, 1),
            cos,
            alpha,
        ),
        BiquadFilterType::Ap => with_plain_denominator(
            m,
            difference(m, natural(m, 1), alpha),
            minus_two_cos(m, cos),
            sum(m, natural(m, 1), alpha),
            cos,
            alpha,
        ),
        BiquadFilterType::Peq => match a {
            Some(a_value) => peaking_coeffs(m, cos, alpha, a_value),
            None => BiquadCoeffs::zeros(),
        },
        BiquadFilterType::LpShelf => match (a, beta) {
            (Some(a_value), Some(beta_value)) => low_shelf_coeffs(m, sin, cos, a_value, beta_value),
            _ => BiquadCoeffs::zeros(),
        },
        BiquadFilterType::HpShelf => match (a, beta) {
            (Some(a_value), Some(beta_value)) => high_shelf_coeffs(
                m,
                sin,
                cos,
                a_value,
                beta_value,
            ),
            _ => BiquadCoeffs::zeros(),
        },
    }
}

/// The gain `A` for a gain in dB, where one is given.
pub open spec fn biquad_gain_of(m: Model, dbgain: Option<Sample>) -> Option<Sample> {
    match dbgain {
        Some(db) => Some(biquad_gain(m, db)),
        None => None,
    }
}

/// `beta` for a gain in dB, where one is given.
pub open spec fn biquad_beta_of(m: Model, dbgain: Option<Sample>, q: Sample) -> Option<Sample> {
    match dbgain {
        Some(db) => Some(biquad_beta(m, biquad_gain(m, db), q)),
        None => None,
    }
}

/// The coefficients of a topology for the corner frequency `fc`, the sampling
/// rate `fs`, the quality factor `q` and, where given, a gain in dB: with
/// `w = 2 * pi * fc / fs`, `sin = sin(w)`, `cos = cos(w)`,
/// `alpha = sin / (2 * q)`, `A = 10 ^ (dbgain / 40)` and `beta = sqrt(A) / q`.
pub open spec fn biquad_design(
    m: Model,
    topology: BiquadFilterType,
    fc: Sample,
    fs: Sample,
    q: Sample,
    dbgain: Option<Sample>,
) -> BiquadCoeffs {
    let w = angular(m, fc, fs);
    let sin = sine(m, w);
    biquad_coeffs(
        m,
        topology,
        sin,
        cosine(m, w),
        biquad_alpha(m, sin, q),
        biquad_gain_of(m, dbgain),
        biquad_beta_of(m, dbgain, q),
    )
}

/// The recurrence in direct form I, not normalised:
/// `y = (b0 x + b1 x1 + b2 x2 - a1 y1 - a2 y2) / a0`.
pub open spec fn biquad_output(
    m: Model,
    c: BiquadCoeffs,
    x: Sample,
    x1: Sample,
    x2: Sample,
    y1: Sample,
    y2: Sample,
) -> Sample {
    quotient(
        m,
        difference(
            m,
            difference(
                m,
                sum(m, sum(m, product(m, c.b0, x), product(m, c.b1, x1)), product(m, c.b2, x2)),
                product(m, c.a1, y1),
            ),
            product(m, c.a2, y2),
        ),
        c.a0,
    )
}

/// What a second-order section keeps between samples: its last two inputs and
/// its last two outputs.
pub struct BiquadMemory {
    pub x1: Sample,
    pub x2: Sample,
    pub y1: Sample,
    pub y2: Sample,
}

/// The memory of a section that has seen no sample.
pub open spec fn biquad_rest() -> BiquadMemory {
    BiquadMemory { x1: ZERO, x2: ZERO, y1: ZERO, y2: ZERO }
}

/// One sample through the section: the output of the recurrence, and the
/// memory shifted by one sample (`x2 <- x1`, `x1 <- x`, `y2 <- y1`, `y1 <- y`).
pub open spec fn biquad_step(m: Model, c: BiquadCoeffs) -> spec_fn(BiquadMemory, Sample) -> (
    BiquadMemory,
    Sample,
) {
    |s: BiquadMemory, x: Sample|
        {
            let y = biquad_output(m, c, x, s.x1, s.x2, s.y1, s.y2);
            (BiquadMemory { x1: x, x2: s.x1, y1: y, y2: s.y1 }, y)
        }
}

/// The design step of the family: the quantities derived from the parameters,
/// and from them the coefficients of a topology.
pub struct DesignBiquadFilter {
    /// The topology that was asked for.
    pub mode: FilterType,
    /// The coefficients; zero until `coeffs` has filled them in.
    pub filt_coeffs: BiquadCoeffs,
    pub theta_sine: Sample,
    pub theta_cosine: Sample,
    pub alpha: Sample,
    /// The linear gain, where a gain in dB was given.
    pub a: Option<Sample>,
    /// `sqrt(a) / q`, where a gain in dB was given.
    pub beta: Option<Sample>,
}

impl DesignBiquadFilter {
    /// Computes the derived quantities. The coefficients are zero until
    /// `coeffs` is called.
    pub fn new<A: Fn(Op) -> Sample>(
        mode: FilterType,
        fc: Sample,
        fs: Sample,
        q: Sample,
        dbgain: Option<Sample>,
        arith: &A,
    ) -> (d: Self)
        requires
            accepts_all(arith),
        ensures
            d.mode == mode,
            d.filt_coeffs == BiquadCoeffs::zeros(),
            forall|m: Model| #[trigger]
                computes(arith, m) ==> {
                    &&& d.theta_sine == sine(m, angular(m, fc, fs))
                    &&& d.theta_cosine == cosine(m, angular(m, fc, fs))
                    &&& d.alpha == biquad_alpha(m, d.theta_sine, q)
                    &&& d.a == biquad_gain_of(m, dbgain)
                    &&& d.beta == biquad_beta_of(m, dbgain, q)
                },
    {
        let filt_coeffs = BiquadCoeffs::new();
        let w: Sample = angular_of(arith, fc, fs);
        let theta_sine: Sample = sin_of(arith, w);
        let theta_cosine: Sample = cos_of(arith, w);
        let two: Sample = from_count(arith, 2);
        let two_q: Sample = times(arith, two, q);
        let alpha: Sample = over(arith, theta_sine, two_q);
        let a: Option<Sample> = match dbgain {
            Some(db_value) => {
                let ten: Sample = from_count(arith, 10);
                let forty: Sample = from_count(arith, 40);
                let e: Sample = over(arith, db_value, forty);
                Some(raise(arith, ten, e))
            },
            None => None,
        };
        let beta: Option<Sample> = match a {
            Some(a_value) => {
                let r: Sample = sqrt_of(arith, a_value);
                Some(over(arith, r, q))
            },
            None => None,
        };
        Self { mode, filt_coeffs, theta_sine, theta_cosine, alpha, a, beta }
    }

    /// Fills in the coefficients of the topology. A topology of another family
    /// leaves them as they are.
    pub fn coeffs<A: Fn(Op) -> Sample>(&mut self, arith: &A)
        requires
            accepts_all(arith),
        ensures
            final(self).mode == old(self).mode,
            final(self).theta_sine == old(self).theta_sine,
            final(self).theta_cosine == old(self).theta_cosine,
            final(self).alpha == old(self).alpha,
            final(self).a == old(self).a,
            final(self).beta == old(self).beta,
            old(self).mode matches FilterType::BiquadType(t) ==> forall|m: Model| #[trigger]
                computes(arith, m) ==> final(self).filt_coeffs == biquad_coeffs(
                    m,
                    t,
                    old(self).theta_sine,
                    old(self).theta_cosine,
                    old(self).alpha,
                    old(self).a,
                    old(self).beta,
                ),
            !(old(self).mode is BiquadType) ==> final(self).filt_coeffs == old(self).filt_coeffs,
    {
        let topology = match self.mode {
            FilterType::BiquadType(t) => t,
            _ => { return ; },
        };
        let one: Sample = from_count(arith, 1);
        let two: Sample = from_count(arith, 2);
        let minus_two: Sample = negate(arith, two);
        let sin: Sample = self.theta_sine;
        let cos: Sample = self.theta_cosine;
        let alpha: Sample = self.alpha;
        match topology {
            BiquadFilterType::Lp => {
                let c: Sample = minus(arith, one, cos);
                let b0: Sample = over(arith, c, two);
                let b1: Sample = c;
                let b2: Sample = b0;
                let a0: Sample = plus(arith, one, alpha);
                let a1: Sample = times(arith, minus_two, cos);
                let a2: Sample = minus(arith, one, alpha);
                self.filt_coeffs.set_coeffs((b0, b1, b2, a0, a1, a2))
            },
            BiquadFilterType::Hp => {
                let c: Sample = plus(arith, one, cos);
                let b0: Sample = over(arith, c, two);
                let b1: Sample = negate(arith, c);
                let b2: Sample = b0;
                let a0: Sample = plus(arith, one, alpha);
                let a1: Sample = times(arith, minus_two, cos);
                let a2: Sample = minus(arith, one, alpha);
                self.filt_coeffs.set_coeffs((b0, b1, b2, a0, a1, a2))
            },
            BiquadFilterType::Bp0dB => {
                let b0: Sample = alpha;
                let b1: Sample = ZERO;
                let b2: Sample = negate(arith, b0);
                let a0: Sample = plus(arith, one, alpha);
                let a1: Sample = times(arith, minus_two, cos);
                let a2: Sample = minus(arith, one, alpha);
                self.filt_coeffs.set_coeffs((b0, b1, b2, a0, a1, a2))
            },
            BiquadFilterType::Bpsg => {
                let b0: Sample = over(arith, sin, two);
                let b1: Sample = ZERO;
                let b2: Sample = negate(arith, b0);
                let a0: Sample = plus(arith, one, alpha);
                let a1: Sample = times(arith, minus_two, cos);
                let a2: Sample = minus(arith, one, alpha);
                self.filt_coeffs.set_coeffs((b0, b1, b2, a0, a1, a2))
            },
            BiquadFilterType::Notch => {
                let b0: Sample = one;
                let b1: Sample = times(arith, minus_two, cos);
                let b2: Sample = b0;
                let a0: Sample = plus(arith, one, alpha);
                let a1: Sample = times(arith, minus_two, cos);
                let a2: Sample = minus(arith, one, alpha);
                self.filt_coeffs.set_coeffs((b0, b1, b2, a0, a1, a2))
            },
            BiquadFilterType::Ap => {
                let b0: Sample = minus(arith, one, alpha);
                let b1: Sample = times(arith, minus_two, cos);
                let b2: Sample = plus(arith, one, alpha);
                let a0: Sample = plus(arith, one, alpha);
                let a1: Sample = times(arith, minus_two, cos);
                let a2: Sample = minus(arith, one, alpha);
                self.filt_coeffs.set_coeffs((b0, b1, b2, a0, a1, a2))
            },
            BiquadFilterType::Peq => {
                match self.a {
                    Some(a_value) => {
                        let up: Sample = times(arith, alpha, a_value);
                        let down: Sample = over(arith, alpha, a_value);
                        let b0: Sample = plus(arith, one, up);
                        let b1: Sample = times(arith, minus_two, cos);
                        let b2: Sample = minus(arith, one, up);
                        let a0: Sample = plus(arith, one, down);
                        let a1: Sample = times(arith, minus_two, cos);
                        let a2: Sample = minus(arith, one, down);
                        self.filt_coeffs.set_coeffs((b0, b1, b2, a0, a1, a2))
                    },
                    None => { self.filt_coeffs.set_coeffs((ZERO, ZERO, ZERO, ZERO, ZERO, ZERO)) },
                }
            },
            BiquadFilterType::LpShelf => {
                match (self.a, self.beta) {
                    (Some(a_value), Some(beta_value)) => {
                        let a_up: Sample = plus(arith, a_value, one);
                        let a_down: Sample = minus(arith, a_value, one);
                        let down_cos: Sample = times(arith, a_down, cos);
                        let up_cos: Sample = times(arith, a_up, cos);
                        let bs: Sample = times(arith, beta_value, sin);
                        let inner_minus: Sample = minus(arith, a_up, down_cos);
                        let inner_plus: Sample = plus(arith, a_up, down_cos);
                        let cross_minus: Sample = minus(arith, a_down, up_cos);
                        let cross_plus: Sample = plus(arith, a_down, up_cos);
                        let two_a: Sample = times(arith, two, a_value);
                        let n0: Sample = plus(arith, inner_minus, bs);
                        let n2: Sample = minus(arith, inner_minus, bs);
                        let b0: Sample = times(arith, a_value, n0);
                        let b1: Sample = times(arith, two_a, cross_minus);
                        let b2: Sample = times(arith, a_value, n2);
                        let a0: Sample = plus(arith, inner_plus, bs);
                        let a1: Sample = times(arith, minus_two, cross_plus);
                        let a2: Sample = minus(arith, inner_plus, bs);
                        self.filt_coeffs.set_coeffs((b0, b1, b2, a0, a1, a2))
                    },
                    _ => { self.filt_coeffs.set_coeffs((ZERO, ZERO, ZERO, ZERO, ZERO, ZERO)) },
                }
            },
            BiquadFilterType::HpShelf => {
                match (self.a, self.beta) {
                    (Some(a_value), Some(beta_value)) => {
                        let a_up: Sample = plus(arith, a_value, one);
                        let a_down: Sample = minus(arith, a_value, one);
                        let down_cos: Sample = times(arith, a_down, cos);
                        let up_cos: Sample = times(arith, a_up, cos);
                        let bs: Sample = times(arith, beta_value, sin);
                        let inner_minus: Sample = minus(arith, a_up, down_cos);
                        let inner_plus: Sample = plus(arith, a_up, down_cos);
                        let cross_minus: Sample = minus(arith, a_down, up_cos);
                        let cross_plus: Sample = plus(arith, a_down, up_cos);
                        let minus_two_a: Sample = times(arith, minus_two, a_value);
                        let n0: Sample = plus(arith, inner_plus, bs);
                        let n2: Sample = minus(arith, inner_plus, bs);
                        let b0: Sample = times(arith, a_value, n0);
                        let b1: Sample = times(arith, minus_two_a, cross_plus);
                        let b2: Sample = times(arith, a_value, n2);
                        let a0: Sample = plus(arith, inner_minus, bs);
                        let a1: Sample = times(arith, two, cross_minus);
                        let a2: Sample = minus(arith, inner_minus, bs);
                        self.filt_coeffs.set_coeffs((b0, b1, b2, a0, a1, a2))
                    },
                    _ => { self.filt_coeffs.set_coeffs((ZERO, ZERO, ZERO, ZERO, ZERO, ZERO)) },
                }
            },
        }
    }
}

/// Evaluates the recurrence of the section.
pub fn biquad_output_of<A: Fn(Op) -> Sample>(
    arith: &A,
    c: &BiquadCoeffs,
    x: Sample,
    x1: Sample,
    x2: Sample,
    y1: Sample,
    y2: Sample,
) -> (y: Sample)
    requires
        accepts_all(arith),
    ensures
        forall|m: Model| #[trigger]
            computes(arith, m) ==> y == biquad_output(m, *c, x, x1, x2, y1, y2),
{
    let t0: Sample = times(arith, c.b0, x);
    let t1: Sample = times(arith, c.b1, x1);
    let t2: Sample = times(arith, c.b2, x2);
    let q1: Sample = times(arith, c.a1, y1);
    let q2: Sample = times(arith, c.a2, y2);
    let s1: Sample = plus(arith, t0, t1);
    let s2: Sample = plus(arith, s1, t2);
    let s3: Sample = minus(arith, s2, q1);
    let s4: Sample = minus(arith, s3, q2);
    over(arith, s4, c.a0)
}

/// A second-order filter at a given sampling rate.
pub struct Biquad {
    fs: Sample,
    x1: Sample,
    x2: Sample,
    y1: Sample,
    y2: Sample,
}

impl Biquad {
    /// The sampling rate that the filter was made for.
    pub closed spec fn sampling_rate(&self) -> Sample {
        self.fs
    }

    /// What the filter keeps between samples.
    pub closed spec fn memory(&self) -> BiquadMemory {
        BiquadMemory { x1: self.x1, x2: self.x2, y1: self.y1, y2: self.y2 }
    }

    /// A filter at rest. A sampling rate that is not positive is an invalid
    /// configuration.
    pub fn new(fs: Sample) -> (r: Result<Self, FilterError>)
        ensures
            !is_positive(fs) ==> r == Err::<Self, FilterError>(FilterError::InvalidConfiguration),
            is_positive(fs) ==> r is Ok,
            r matches Ok(f) ==> f.sampling_rate() == fs && f.memory() == biquad_rest(),
    {
        if !positive(fs) {
            return Err(FilterError::InvalidConfiguration);
        }
        Ok(Self { fs, x1: ZERO, x2: ZERO, y1: ZERO, y2: ZERO })
    }

    /// Designs the topology that `mode` names for the corner frequency `fc`,
    /// the quality factor `q` and, for the equaliser and the shelves, a gain
    /// in dB, and returns `(b0, b1, b2, a0, a1, a2)`. The names are `"lp"`,
    /// `"hp"`, `"bp0db"`, `"bpsg"`, `"notch"`, `"ap"`, `"peq"`, `"lps"` and
    /// `"hps"`; another name is an invalid argument. The equaliser and the
    /// shelves without a gain give six zeros.
    pub fn design_filter<A: Fn(Op) -> Sample>(
        &self,
        mode: &str,
        fc: Sample,
        q: Sample,
        dbgain: Option<Sample>,
        arith: &A,
    ) -> (r: Result<(Sample, Sample, Sample, Sample, Sample, Sample), FilterError>)
        requires
            accepts_all(arith),
        ensures
            BiquadFilterType::named(mode@) is None ==> r == Err::<
                (Sample, Sample, Sample, Sample, Sample, Sample),
                FilterError,
            >(FilterError::InvalidArgument),
            BiquadFilterType::named(mode@) is Some ==> r is Ok,
            BiquadFilterType::named(mode@) matches Some(t) ==> forall|m: Model| #[trigger]
                computes(arith, m) ==> r == Ok::<
                    (Sample, Sample, Sample, Sample, Sample, Sample),
                    FilterError,
                >(biquad_design(m, t, fc, self.sampling_rate(), q, dbgain).tuple()),
    {
        let topology = match BiquadFilterType::from_name(mode) {
            Ok(t) => t,
            Err(e) => { return Err(e); },
        };
        let mut design_filter = DesignBiquadFilter::new(
            FilterType::BiquadType(topology),
            fc,
            self.fs,
            q,
            dbgain,
            arith,
        );
        design_filter.coeffs(arith);
        let coeffs = design_filter.filt_coeffs;
        Ok((coeffs.b0, coeffs.b1, coeffs.b2, coeffs.a0, coeffs.a1, coeffs.a2))
    }

    /// Filters one sample and shifts the memory by it.
    pub fn filt_sample<A: Fn(Op) -> Sample>(
        &mut self,
        sample: Sample,
        coeffs: (Sample, Sample, Sample, Sample, Sample, Sample),
        arith: &A,
    ) -> (y: Sample)
        requires
            accepts_all(arith),
        ensures
            final(self).sampling_rate() == old(self).sampling_rate(),
            forall|m: Model| #[trigger]
                computes(arith, m) ==> (final(self).memory(), y) == biquad_step(
                    m,
                    BiquadCoeffs::of(coeffs),
                )(old(self).memory(), sample),
    {
        let c = BiquadCoeffs {
            b0: coeffs.0,
            b1: coeffs.1,
            b2: coeffs.2,
            a0: coeffs.3,
            a1: coeffs.4,
            a2: coeffs.5,
        };
        let y: Sample = biquad_output_of(arith, &c, sample, self.x1, self.x2, self.y1, self.y2);
        self.x2 = self.x1;
        self.x1 = sample;
        self.y2 = self.y1;
        self.y1 = y;
        y
    }

    /// Filters a buffer: the samples in order, each starting from the memory
    /// that the one before it left. The result has one sample for each input.
    pub fn filt_frame<A: Fn(Op) -> Sample>(
        &mut self,
        frame: Vec<Sample>,
        coeffs: (Sample, Sample, Sample, Sample, Sample, Sample),
        arith: &A,
    ) -> (out: Vec<Sample>)
        requires
            accepts_all(arith),
        ensures
            final(self).sampling_rate() == old(self).sampling_rate(),
            out@.len() == frame@.len(),
            frame@.len() == 0 ==> final(self).memory() == old(self).memory(),
            forall|m: Model| #[trigger]
                computes(arith, m) ==> (final(self).memory(), out@) == run(
                    biquad_step(m, BiquadCoeffs::of(coeffs)),
                    old(self).memory(),
                    frame@,
                ),
    {
        let mut out: Vec<Sample> = Vec::new();
        let mut i: usize = 0;
        while i < frame.len()
            invariant
                accepts_all(arith),
                self.sampling_rate() == old(self).sampling_rate(),
                i <= frame.len(),
                out@.len() == i,
                i == 0 ==> self.memory() == old(self).memory(),
                forall|m: Model| #[trigger]
                    computes(arith, m) ==> (self.memory(), out@) == run(
                        biquad_step(m, BiquadCoeffs::of(coeffs)),
                        old(self).memory(),
                        frame@.take(i as int),
                    ),
            decreases frame.len() - i,
        {
            let y: Sample = self.filt_sample(frame[i], coeffs, arith);
            out.push(y);
            proof {
                assert forall|m: Model| #[trigger] computes(arith, m) implies (self.memory(), out@)
                    == run(
                    biquad_step(m, BiquadCoeffs::of(coeffs)),
                    old(self).memory(),
                    frame@.take(i + 1),
                ) by {
                    run_one_more(
                        biquad_step(m, BiquadCoeffs::of(coeffs)),
                        old(self).memory(),
                        frame@,
                        i as int,
                    );
                }
            }
            i += 1;
        }
        proof {
            assert(frame@.take(frame@.len() as int) =~= frame@);
        }
        out
    }

    /// Puts the memory back to rest. The sampling rate stays.
    pub fn clear_delayed_samples_cache(&mut self)
        ensures
            final(self).sampling_rate() == old(self).sampling_rate(),
            final(self).memory() == biquad_rest(),
    {
        self.x1 = ZERO;
        self.x2 = ZERO;
        self.y1 = ZERO;
        self.y2 = ZERO;
    }
}

/// The all-pass has the coefficients of its denominator in reverse as its
/// numerator: `b0 = a2` and `b2 = a0`, whatever the parameters.
pub proof fn all_pass_is_symmetric(
    m: Model,
    fc: Sample,
    fs: Sample,
    q: Sample,
    dbgain: Option<Sample>,
)
    ensures
        biquad_design(m, BiquadFilterType::Ap, fc, fs, q, dbgain).b0 == biquad_design(
            m,
            BiquadFilterType::Ap,
            fc,
            fs,
            q,
            dbgain,
        ).a2,
        biquad_design(m, BiquadFilterType::Ap, fc, fs, q, dbgain).b2 == biquad_design(
            m,
            BiquadFilterType::Ap,
            fc,
            fs,
            q,
            dbgain,
        ).a0,
        biquad_design(m, BiquadFilterType::Ap, fc, fs, q, dbgain).b1 == biquad_design(
            m,
            BiquadFilterType::Ap,
            fc,
            fs,
            q,
            dbgain,
        ).a1,
{
}

} // verus!
