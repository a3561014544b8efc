//! The virtual-analog family: one-pole filters and a state-variable filter
//! built around integrators, with two numbers of state.
use vstd::prelude::*;
use crate::arithmetic::{
    accepts_all, computes, difference, from_count, is_positive, minus, natural, over, plus,
    positive, power, product, quotient, raise, sqrt_of, square_root, sum, tan_of, tangent, times,
    two_pi, two_pi_of, Model, Op, Sample, ZERO,
};
use crate::error::FilterError;
use crate::filtertype::ZavalishinFilterType;

verus! {

/// The sampling period `Ts = 1 / fs`.
pub open spec fn period(m: Model, fs: Sample) -> Sample {
    quotient(m, natural(m, 1), fs)
}

/// The pre-warped analog frequency `Wa = (2 / Ts) * tan(w * Ts / 2)`.
pub open spec fn warped(m: Model, w: Sample, ts: Sample) -> Sample {
    product(
        m,
        quotient(m, natural(m, 2), ts),
        tangent(m, quotient(m, product(m, w, ts), natural(m, 2))),
    )
}

/// The integrator gain of the zero-delay and the trapezoidal one-pole:
/// `g = Wa * Ts / 2`.
pub open spec fn half_gain(m: Model, wa: Sample, ts: Sample) -> Sample {
    quotient(m, product(m, wa, ts), natural(m, 2))
}

/// The parameters of a design: the gains `g` and `g1` and the damping `r`.
pub struct ZavalishinDesign {
    pub g: Sample,
    pub g1: Sample,
    pub r: Sample,
}

/// The parameters after a design for the corner frequency `fc`, from the
/// parameters `before` it. With `wc = 2 pi fc` and `Ts = 1 / fs`:
///
/// * zero-delay and trapezoidal one-pole: `g = Wa Ts / 2` for `Wa` at `wc`;
/// * naive one-pole: `g = Wa Ts`;
/// * state-variable, for a second corner at `fc + spread`, `w = 2 pi (fc +
///   spread)` and `ws = sqrt(wc w)`: `r = ((wc + w) / 2) / ws`,
///   `g = Wa Ts / 2` for `Wa` at `ws`, and `g1 = 1 + 2 r g + g^2`.
///
/// The one-pole topologies leave `g1` and `r` as they were. The
/// state-variable topology needs the spread: without it there is no design.
pub open spec fn zavalishin_design(
    m: Model,
    topology: ZavalishinFilterType,
    fc: Sample,
    fc_spread: Option<Sample>,
    fs: Sample,
    before: ZavalishinDesign,
) -> Option<ZavalishinDesign> {
    let wc = product(m, two_pi(m), fc);
    let ts = period(m, fs);
    let wa = warped(m, wc, ts);
    match topology {
        ZavalishinFilterType::OnePoleZeroDelay => Some(
            ZavalishinDesign { g: half_gain(m, wa, ts), g1: before.g1, r: before.r },
        ),
        ZavalishinFilterType::NaiveOnePole => Some(
            ZavalishinDesign { g: product(m, wa, ts), g1: before.g1, r: before.r },
        ),
        ZavalishinFilterType::TrapIntOnePole => Some(
            ZavalishinDesign { g: half_gain(m, wa, ts), g1: before.g1, r: before.r },
        ),
        ZavalishinFilterType::StateVariable => match fc_spread {
            Some(spread) => {
                let w = product(m, two_pi(m), sum(m, fc, spread));
                let w_sqrt = square_root(m, product(m, wc, w));
                let r = quotient(m, quotient(m, sum(m, wc, w), natural(m, 2)), w_sqrt);
                let g = half_gain(m, warped(m, w_sqrt, ts), ts);
                let g1 = sum(
                    m,
                    sum(m, natural(m, 1), product(m, product(m, natural(m, 2), r), g)),
                    power(m, g, natural(m, 2)),
                );
                Some(ZavalishinDesign { g, g1, r })
            },
            None => None,
        },
    }
}

/// Whether a design exists: the name selects a topology, and the
/// state-variable topology comes with its spread.
pub open spec fn zavalishin_designable(name: Seq<char>, fc_spread: Option<Sample>) -> bool {
    match ZavalishinFilterType::named(name) {
        Some(ZavalishinFilterType::StateVariable) => fc_spread is Some,
        Some(_) => true,
        None => false,
    }
}

/// The two numbers that the filter keeps between samples.
pub struct ZavalishinMemory {
    pub z: Sample,
    pub s: Sample,
}

/// The state of a filter that has seen no sample.
pub open spec fn zavalishin_rest() -> ZavalishinMemory {
    ZavalishinMemory { z: ZERO, s: ZERO }
}

/// The parameters of a filter for which nothing was designed.
pub open spec fn no_design() -> ZavalishinDesign {
    ZavalishinDesign { g: ZERO, g1: ZERO, r: ZERO }
}

/// The five outputs for one sample: low-pass, high-pass, all-pass, band-pass
/// and band-reject. A topology leaves at zero those that it does not have.
pub struct ZavalishinOutput {
    pub lp: Sample,
    pub hp: Sample,
    pub ap: Sample,
    pub bp: Sample,
    pub br: Sample,
}

impl ZavalishinOutput {
    /// The outputs in the order `lp, hp, ap, bp, br`.
    pub open spec fn tuple(self) -> (Sample, Sample, Sample, Sample, Sample) {
        (self.lp, self.hp, self.ap, self.bp, self.br)
    }
}

/// The integrator of the one-pole topologies: `v = (x - z) g`, `lp = v + z`,
/// `hp = x - lp` and the next state `lp + v`; given as `(lp, hp, lp + v)`.
pub open spec fn one_pole_integrator(m: Model, x: Sample, g: Sample, z: Sample) -> (
    Sample,
    Sample,
    Sample,
) {
    let v = product(m, difference(m, x, z), g);
    let lp = sum(m, v, z);
    (lp, difference(m, x, lp), sum(m, lp, v))
}

/// The state-variable filter: `hp = (x - 2 r z - g z - s) / g1`,
/// `bp = g hp + z`, `lp = g bp + s`, `br = x - 2 r bp`; given as
/// `(lp, hp, bp, br)`.
pub open spec fn state_variable(m: Model, x: Sample, d: ZavalishinDesign, z: Sample, s: Sample) -> (
    Sample,
    Sample,
    Sample,
    Sample,
) {
    let two_r = product(m, natural(m, 2), d.r);
    let hp = quotient(
        m,
        difference(
            m,
            difference(m, difference(m, x, product(m, two_r, z)), product(m, d.g, z)),
            s,
        ),
        d.g1,
    );
    let bp = sum(m, product(m, d.g, hp), z);
    let lp = sum(m, product(m, d.g, bp), s);
    let br = difference(m, x, product(m, two_r, bp));
    (lp, hp, bp, br)
}

/// One sample through the filter: the next state and the five outputs.
///
/// * Zero-delay one-pole: the integrator's `lp` and `hp`, `ap = lp - hp`;
///   the next `z` is the integrator's next state.
/// * Naive one-pole: the integrator's `lp`, and half its `hp`; the next `z`
///   is `lp`.
/// * Trapezoidal one-pole: the integrator's `lp` and `hp`; the next `z` is
///   the integrator's next state.
/// * State-variable: `lp`, `hp`, `bp` and `br`; the next `z` is `g hp + bp`
///   and the next `s` is `g bp + lp`.
/// * Nothing designed: every output zero, and the state zero.
///
/// All but the state-variable topology leave `s` at zero.
pub open spec fn zavalishin_step(
    m: Model,
    topology: Option<ZavalishinFilterType>,
    d: ZavalishinDesign,
    state: ZavalishinMemory,
    x: Sample,
) -> (ZavalishinMemory, ZavalishinOutput) {
    match topology {
        Some(ZavalishinFilterType::OnePoleZeroDelay) => {
            let i = one_pole_integrator(m, x, d.g, state.z);
            (
                ZavalishinMemory { z: i.2, s: ZERO },
                ZavalishinOutput {
                    lp: i.0,
                    hp: i.1,
                    ap: difference(m, i.0, i.1),
                    bp: ZERO,
                    br: ZERO,
                },
            )
        },
        Some(ZavalishinFilterType::NaiveOnePole) => {
            let i = one_pole_integrator(m, x, d.g, state.z);
            (
                ZavalishinMemory { z: i.0, s: ZERO },
                ZavalishinOutput {
                    lp: i.0,
                    hp: quotient(m, i.1, natural(m, 2)),
                    ap: ZERO,
                    bp: ZERO,
                    br: ZERO,
                },
            )
        },
        Some(ZavalishinFilterType::TrapIntOnePole) => {
            let i = one_pole_integrator(m, x, d.g, state.z);
            (
                ZavalishinMemory { z: i.2, s: ZERO },
                ZavalishinOutput { lp: i.0, hp: i.1, ap: ZERO, bp: ZERO, br: ZERO },
            )
        },
        Some(ZavalishinFilterType::StateVariable) => {
            let v = state_variable(m, x, d, state.z, state.s);
            (
                ZavalishinMemory {
                    z: sum(m, product(m, d.g, v.1), v.2),
                    s: sum(m, product(m, d.g, v.2), v.0),
                },
                ZavalishinOutput { lp: v.0, hp: v.1, ap: ZERO, bp: v.2, br: v.3 },
            )
        },
        None => (
            zavalishin_rest(),
            ZavalishinOutput { lp: ZERO, hp: ZERO, ap: ZERO, bp: ZERO, br: ZERO },
        ),
    }
}

/// Evaluates the integrator of the one-pole topologies.
pub fn one_pole_integrator_of<A: Fn(Op) -> Sample>(arith: &A, sample: Sample, g: Sample, z: Sample) -> (r:
    (Sample, Sample, Sample))
    requires
        accepts_all(arith),
    ensures
        forall|m: Model| #[trigger]
            computes(arith, m) ==> r == one_pole_integrator(m, sample, g, z),
{
    let d: Sample = minus(arith, sample, z);
    let v: Sample = times(arith, d, g);
    let lp: Sample = plus(arith, v, z);
    let hp: Sample = minus(arith, sample, lp);
    let z_next: Sample = plus(arith, lp, v);
    (lp, hp, z_next)
}

/// Evaluates the state-variable filter for the coefficients `(g, g1, r)`.
pub fn state_variable_of<A: Fn(Op) -> Sample>(
    arith: &A,
    sample: Sample,
    coeffs: (Sample, Sample, Sample),
    z: Sample,
    s: Sample,
) -> (r: (Sample, Sample, Sample, Sample))
    requires
        accepts_all(arith),
    ensures
        forall|m: Model| #[trigger]
            computes(arith, m) ==> r == state_variable(
                m,
                sample,
                ZavalishinDesign { g: coeffs.0, g1: coeffs.1, r: coeffs.2 },
                z,
                s,
            ),
{
    let two: Sample = from_count(arith, 2);
    let two_r: Sample = times(arith, two, coeffs.2);
    let damped: Sample = times(arith, two_r, z);
    let a: Sample = minus(arith, sample, damped);
    let gz: Sample = times(arith, coeffs.0, z);
    let b: Sample = minus(arith, a, gz);
    let c: Sample = minus(arith, b, s);
    let hp: Sample = over(arith, c, coeffs.1);
    let g_hp: Sample = times(arith, coeffs.0, hp);
    let bp: Sample = plus(arith, g_hp, z);
    let g_bp: Sample = times(arith, coeffs.0, bp);
    let lp: Sample = plus(arith, g_bp, s);
    let damped_bp: Sample = times(arith, two_r, bp);
    let br: Sample = minus(arith, sample, damped_bp);
    (lp, hp, bp, br)
}

/// A virtual-analog filter at a given sampling rate.
pub struct Zavalishin {
    fs: Sample,
    g: Sample,
    g1: Sample,
    r: Sample,
    z_sample: Sample,
    s_sample: Sample,
    filt_type: Option<ZavalishinFilterType>,
}

impl Zavalishin {
    /// The sampling rate that the filter was made for.
    pub closed spec fn sampling_rate(&self) -> Sample {
        self.fs
    }

    /// The topology that was designed last, if any was.
    pub closed spec fn topology(&self) -> Option<ZavalishinFilterType> {
        self.filt_type
    }

    /// The parameters that were designed last; zero before the first design.
    pub closed spec fn design(&self) -> ZavalishinDesign {
        ZavalishinDesign { g: self.g, g1: self.g1, r: self.r }
    }

    /// What the filter keeps between samples.
    pub closed spec fn memory(&self) -> ZavalishinMemory {
        ZavalishinMemory { z: self.z_sample, s: self.s_sample }
    }

    /// A filter at rest with nothing designed. A sampling rate that is not
    /// positive is an invalid configuration.
    pub fn new(fs: Sample) -> (r: Result<Self, FilterError>)
        ensures
            !is_positive(fs) ==> r == Err::<Self, FilterError>(FilterError::InvalidConfiguration),
            is_positive(fs) ==> r is Ok,
            r matches Ok(f) ==> {
                &&& f.sampling_rate() == fs
                &&& f.topology() is None
                &&& f.design() == no_design()
                &&& f.memory() == zavalishin_rest()
            },
    {
        if !positive(fs) {
            return Err(FilterError::InvalidConfiguration);
        }
        Ok(
            Self {
                fs,
                g: ZERO,
                g1: ZERO,
                r: ZERO,
                z_sample: ZERO,
                s_sample: ZERO,
                filt_type: None,
            },
        )
    }

    /// Designs the topology that `mode` names (`"zdf"`, `"naive"`, `"trap"`
    /// or `"svf"`) for the corner frequency `fc` and makes it the topology of
    /// the filter; the state is left as it was. The state-variable topology
    /// needs `fc_spread`, the distance to its second corner. A name that
    /// selects no topology, or the state-variable topology without a spread,
    /// is an invalid argument and leaves the filter as it was.
    pub fn design_filter<A: Fn(Op) -> Sample>(
        &mut self,
        mode: &str,
        fc: Sample,
        fc_spread: Option<Sample>,
        arith: &A,
    ) -> (r: Result<(), FilterError>)
        requires
            accepts_all(arith),
        ensures
            final(self).sampling_rate() == old(self).sampling_rate(),
            final(self).memory() == old(self).memory(),
            zavalishin_designable(mode@, fc_spread) ==> r is Ok && final(self).topology()
                == ZavalishinFilterType::named(mode@),
            !zavalishin_designable(mode@, fc_spread) ==> r == Err::<(), FilterError>(
                FilterError::InvalidArgument,
            ) && *final(self) == *old(self),
            r is Ok ==> forall|m: Model| #[trigger]
                computes(arith, m) ==> Some(final(self).design()) == zavalishin_design(
                    m,
                    ZavalishinFilterType::named(mode@)->0,
                    fc,
                    fc_spread,
                    old(self).sampling_rate(),
                    old(self).design(),
                ),
    {
        let topology = match ZavalishinFilterType::from_name(mode) {
            Ok(t) => t,
            Err(e) => { return Err(e); },
        };
        let tp: Sample = two_pi_of(arith);
        let wc: Sample = times(arith, tp, fc);
        let one: Sample = from_count(arith, 1);
        let two: Sample = from_count(arith, 2);
        let ts: Sample = over(arith, one, self.fs);
        let two_over_ts: Sample = over(arith, two, ts);
        let wc_ts: Sample = times(arith, wc, ts);
        let half: Sample = over(arith, wc_ts, two);
        let t: Sample = tan_of(arith, half);
        let wa: Sample = times(arith, two_over_ts, t);
        match topology {
            ZavalishinFilterType::OnePoleZeroDelay => {
                let wa_ts: Sample = times(arith, wa, ts);
                self.filt_type = Some(ZavalishinFilterType::OnePoleZeroDelay);
                self.g = over(arith, wa_ts, two);
            },
            ZavalishinFilterType::NaiveOnePole => {
                self.filt_type = Some(ZavalishinFilterType::NaiveOnePole);
                self.g = times(arith, wa, ts);
            },
            ZavalishinFilterType::TrapIntOnePole => {
                let wa_ts: Sample = times(arith, wa, ts);
                self.filt_type = Some(ZavalishinFilterType::TrapIntOnePole);
                self.g = over(arith, wa_ts, two);
            },
            ZavalishinFilterType::StateVariable => {
                let spread: Sample = match fc_spread {
                    Some(s) => s,
                    None => { return Err(FilterError::InvalidArgument); },
                };
                self.filt_type = Some(ZavalishinFilterType::StateVariable);
                let upper: Sample = plus(arith, fc, spread);
                let w: Sample = times(arith, tp, upper);
                let wc_w: Sample = times(arith, wc, w);
                let w_sqrt: Sample = sqrt_of(arith, wc_w);
                let both: Sample = plus(arith, wc, w);
                let mean: Sample = over(arith, both, two);
                self.r = over(arith, mean, w_sqrt);
                let ws_ts: Sample = times(arith, w_sqrt, ts);
                let half_ws: Sample = over(arith, ws_ts, two);
                let tan_ws: Sample = tan_of(arith, half_ws);
                let wa_ws: Sample = times(arith, two_over_ts, tan_ws);
                let wa_ts: Sample = times(arith, wa_ws, ts);
                self.g = over(arith, wa_ts, two);
                let two_r: Sample = times(arith, two, self.r);
                let two_r_g: Sample = times(arith, two_r, self.g);
                let head: Sample = plus(arith, one, two_r_g);
                let g_squared: Sample = raise(arith, self.g, two);
                self.g1 = plus(arith, head, g_squared);
            },
        }
        Ok(())
    }

    /// Filters one sample with the topology that was designed last and
    /// returns `(lp, hp, ap, bp, br)`. Before any design every output is zero.
    pub fn filt_sample<A: Fn(Op) -> Sample>(&mut self, sample: Sample, arith: &A) -> (out: (
        Sample,
        Sample,
        Sample,
        Sample,
        Sample,
    ))
        requires
            accepts_all(arith),
        ensures
            final(self).sampling_rate() == old(self).sampling_rate(),
            final(self).topology() == old(self).topology(),
            final(self).design() == old(self).design(),
            forall|m: Model| #[trigger]
                computes(arith, m) ==> {
                    let next = zavalishin_step(
                        m,
                        old(self).topology(),
                        old(self).design(),
                        old(self).memory(),
                        sample,
                    );
                    final(self).memory() == next.0 && out == next.1.tuple()
                },
    {
        let (lp, hp, ap, bp, br, z, s): (Sample, Sample, Sample, Sample, Sample, Sample, Sample) =
            match self.filt_type {
            Some(ZavalishinFilterType::OnePoleZeroDelay) => {
                let (lp, hp, z) = one_pole_integrator_of(arith, sample, self.g, self.z_sample);
                let ap: Sample = minus(arith, lp, hp);
                (lp, hp, ap, ZERO, ZERO, z, ZERO)
            },
            Some(ZavalishinFilterType::NaiveOnePole) => {
                let (lp, hp, _z) = one_pole_integrator_of(arith, sample, self.g, self.z_sample);
                let two: Sample = from_count(arith, 2);
                let half_hp: Sample = over(arith, hp, two);
                (lp, half_hp, ZERO, ZERO, ZERO, lp, ZERO)
            },
            Some(ZavalishinFilterType::TrapIntOnePole) => {
                let (lp, hp, z) = one_pole_integrator_of(arith, sample, self.g, self.z_sample);
                (lp, hp, ZERO, ZERO, ZERO, z, ZERO)
            },
            Some(ZavalishinFilterType::StateVariable) => {
                let (lp, hp, bp, br) = state_variable_of(
                    arith,
                    sample,
                    (self.g, self.g1, self.r),
                    self.z_sample,
                    self.s_sample,
                );
                let g_hp: Sample = times(arith, self.g, hp);
                let z: Sample = plus(arith, g_hp, bp);
                let g_bp: Sample = times(arith, self.g, bp);
                let s: Sample = plus(arith, g_bp, lp);
                (lp, hp, ZERO, bp, br, z, s)
            },
            None => (ZERO, ZERO, ZERO, ZERO, ZERO, ZERO, ZERO),
        };
        self.z_sample = z;
        self.s_sample = s;
        (lp, hp, ap, bp, br)
    }

    /// Puts the state back to zero. The topology and its parameters stay.
    pub fn clear_delayed_samples_cache(&mut self)
        ensures
            final(self).sampling_rate() == old(self).sampling_rate(),
            final(self).topology() == old(self).topology(),
            final(self).design() == old(self).design(),
            final(self).memory() == zavalishin_rest(),
    {
        self.z_sample = ZERO;
        self.s_sample = ZERO;
    }
}

/// The low-pass and the high-pass outputs of the zero-delay one-pole.
pub open spec fn zero_delay_outputs(m: Model, g: Sample, z: Sample, x: Sample) -> (Sample, Sample) {
    let out = zavalishin_step(
        m,
        Some(ZavalishinFilterType::OnePoleZeroDelay),
        ZavalishinDesign { g, g1: ZERO, r: ZERO },
        ZavalishinMemory { z, s: ZERO },
        x,
    ).1;
    (out.lp, out.hp)
}

/// In the zero-delay one-pole the high-pass is the input less the low-pass,
/// whatever the gain, the state and the arithmetic.
pub proof fn high_pass_is_input_less_low_pass(m: Model, g: Sample, z: Sample, x: Sample)
    ensures
        zero_delay_outputs(m, g, z, x).1 == difference(m, x, zero_delay_outputs(m, g, z, x).0),
{
}

/// In the zero-delay one-pole the low-pass and the high-pass add up to the
/// input, wherever the arithmetic gives `x` back when it adds `lp` to
/// `x - lp`. Rounding arithmetic does so for most inputs and not for all.
pub proof fn low_and_high_rebuild_the_input(m: Model, g: Sample, z: Sample, x: Sample)
    requires
        sum(
            m,
            zero_delay_outputs(m, g, z, x).0,
            difference(m, x, zero_delay_outputs(m, g, z, x).0),
        ) == x,
    ensures
        sum(m, zero_delay_outputs(m, g, z, x).0, zero_delay_outputs(m, g, z, x).1) == x,
{
}

} // verus!
