//! The closed sets of topologies, one per filter family, and the names by which
//! a caller selects them.
use vstd::prelude::*;
use crate::error::FilterError;
use crate::text::same_text;

verus! {

/// The topologies of the biquad family.
#[derive(Clone, Copy, Debug, PartialEq, Eq, Structural)]
pub enum BiquadFilterType {
    /// Low-pass.
    Lp,
    /// High-pass.
    Hp,
    /// Band-pass with a peak gain of 0 dB.
    Bp0dB,
    /// Band-pass with constant skirt gain.
    Bpsg,
    /// Notch.
    Notch,
    /// All-pass.
    Ap,
    /// Peaking equaliser.
    Peq,
    /// Low shelf.
    LpShelf,
    /// High shelf.
    HpShelf,
}

impl BiquadFilterType {
    /// The topology that a name selects, if it selects one.
    pub open spec fn named(name: Seq<char>) -> Option<BiquadFilterType> {
        if name == "lp"@ {
            Some(BiquadFilterType::Lp)
        } else if name == "hp"@ {
            Some(BiquadFilterType::Hp)
        } else if name == "bp0db"@ {
            Some(BiquadFilterType::Bp0dB)
        } else if name == "bpsg"@ {
            Some(BiquadFilterType::Bpsg)
        } else if name == "notch"@ {
            Some(BiquadFilterType::Notch)
        } else if name == "ap"@ {
            Some(BiquadFilterType::Ap)
        } else if name == "peq"@ {
            Some(BiquadFilterType::Peq)
        } else if name == "lps"@ {
            Some(BiquadFilterType::LpShelf)
        } else if name == "hps"@ {
            Some(BiquadFilterType::HpShelf)
        } else {
            None
        }
    }

    /// Selects a topology by its name; a name that selects none is an invalid argument.
    pub fn from_name(name: &str) -> (r: Result<BiquadFilterType, FilterError>)
        ensures
            r == (match Self::named(name@) {
                Some(t) => Ok::<Self, FilterError>(t),
                None => Err(FilterError::InvalidArgument),
            }),
    {
        if same_text(name, "lp") {
            Ok(BiquadFilterType::Lp)
        } else if same_text(name, "hp") {
            Ok(BiquadFilterType::Hp)
        } else if same_text(name, "bp0db") {
            Ok(BiquadFilterType::Bp0dB)
        } else if same_text(name, "bpsg") {
            Ok(BiquadFilterType::Bpsg)
        } else if same_text(name, "notch") {
            Ok(BiquadFilterType::Notch)
        } else if same_text(name, "ap") {
            Ok(BiquadFilterType::Ap)
        } else if same_text(name, "peq") {
            Ok(BiquadFilterType::Peq)
        } else if same_text(name, "lps") {
            Ok(BiquadFilterType::LpShelf)
        } else if same_text(name, "hps") {
            Ok(BiquadFilterType::HpShelf)
        } else {
            Err(FilterError::InvalidArgument)
        }
    }
}

/// The topologies of the two-zero and two-pole family.
#[derive(Clone, Copy, Debug, PartialEq, Eq, Structural)]
pub enum TwoZeroTwoPoleFilterType {
    /// Two zeros: a notch.
    Notch,
    /// Two poles: a band-pass.
    Bp,
}

impl TwoZeroTwoPoleFilterType {
    /// The topology that a name selects, if it selects one.
    pub open spec fn named(name: Seq<char>) -> Option<TwoZeroTwoPoleFilterType> {
        if name == "notch"@ {
            Some(TwoZeroTwoPoleFilterType::Notch)
        } else if name == "bp"@ {
            Some(TwoZeroTwoPoleFilterType::Bp)
        } else {
            None
        }
    }

    /// Selects a topology by its name; a name that selects none is an invalid argument.
    pub fn from_name(name: &str) -> (r: Result<TwoZeroTwoPoleFilterType, FilterError>)
        ensures
            r == (match Self::named(name@) {
                Some(t) => Ok::<Self, FilterError>(t),
                None => Err(FilterError::InvalidArgument),
            }),
    {
        if same_text(name, "notch") {
            Ok(TwoZeroTwoPoleFilterType::Notch)
        } else if same_text(name, "bp") {
            Ok(TwoZeroTwoPoleFilterType::Bp)
        } else {
            Err(FilterError::InvalidArgument)
        }
    }
}

/// The modes of the comb and all-pass family.
#[derive(Clone, Copy, Debug, PartialEq, Eq, Structural)]
pub enum HarmonicFilterType {
    /// Forward comb.
    CombFIR,
    /// Forward comb in the Freeverb form.
    CombFreeverbFIR,
    /// Feedback comb.
    CombIIR,
    /// Feedback comb with a low-pass in the feedback path.
    LPFBCombFilter,
    /// All-pass.
    Allpass,
    /// All-pass in the Freeverb form.
    AllpassFreeverb,
    /// All-pass with a low-pass in the feedback path.
    LPFBAllpassFilter,
}

impl HarmonicFilterType {
    /// The topology that a name selects, if it selects one.
    pub open spec fn named(name: Seq<char>) -> Option<HarmonicFilterType> {
        if name == "combf"@ {
            Some(HarmonicFilterType::CombFIR)
        } else if name == "combfreev"@ {
            Some(HarmonicFilterType::CombFreeverbFIR)
        } else if name == "combi"@ {
            Some(HarmonicFilterType::CombIIR)
        } else if name == "lpcombi"@ {
            Some(HarmonicFilterType::LPFBCombFilter)
        } else if name == "allpass"@ {
            Some(HarmonicFilterType::Allpass)
        } else if name == "allpassfreev"@ {
            Some(HarmonicFilterType::AllpassFreeverb)
        } else if name == "lpallpass"@ {
            Some(HarmonicFilterType::LPFBAllpassFilter)
        } else {
            None
        }
    }

    /// Selects a topology by its name; a name that selects none is an invalid argument.
    pub fn from_name(name: &str) -> (r: Result<HarmonicFilterType, FilterError>)
        ensures
            r == (match Self::named(name@) {
                Some(t) => Ok::<Self, FilterError>(t),
                None => Err(FilterError::InvalidArgument),
            }),
    {
        if same_text(name, "combf") {
            Ok(HarmonicFilterType::CombFIR)
        } else if same_text(name, "combfreev") {
            Ok(HarmonicFilterType::CombFreeverbFIR)
        } else if same_text(name, "combi") {
            Ok(HarmonicFilterType::CombIIR)
        } else if same_text(name, "lpcombi") {
            Ok(HarmonicFilterType::LPFBCombFilter)
        } else if same_text(name, "allpass") {
            Ok(HarmonicFilterType::Allpass)
        } else if same_text(name, "allpassfreev") {
            Ok(HarmonicFilterType::AllpassFreeverb)
        } else if same_text(name, "lpallpass") {
            Ok(HarmonicFilterType::LPFBAllpassFilter)
        } else {
            Err(FilterError::InvalidArgument)
        }
    }
}

/// The topologies of the one-pole family.
#[derive(Clone, Copy, Debug, PartialEq, Eq, Structural)]
pub enum OnePoleFilterType {
    /// Low-pass.
    LowPass,
    /// High-pass.
    HighPass,
}

impl OnePoleFilterType {
    /// The topology that a name selects, if it selects one.
    pub open spec fn named(name: Seq<char>) -> Option<OnePoleFilterType> {
        if name == "lp"@ {
            Some(OnePoleFilterType::LowPass)
        } else if name == "hp"@ {
            Some(OnePoleFilterType::HighPass)
        } else {
            None
        }
    }

    /// Selects a topology by its name; a name that selects none is an invalid argument.
    pub fn from_name(name: &str) -> (r: Result<OnePoleFilterType, FilterError>)
        ensures
            r == (match Self::named(name@) {
                Some(t) => Ok::<Self, FilterError>(t),
                None => Err(FilterError::InvalidArgument),
            }),
    {
        if same_text(name, "lp") {
            Ok(OnePoleFilterType::LowPass)
        } else if same_text(name, "hp") {
            Ok(OnePoleFilterType::HighPass)
        } else {
            Err(FilterError::InvalidArgument)
        }
    }
}

/// The topologies of the DC-blocking family.
#[derive(Clone, Copy, Debug, PartialEq, Eq, Structural)]
pub enum DcBlockFilterType {
    /// The DC blocker in Julius Smith's form.
    DcBlockJulius,
}

impl DcBlockFilterType {
    /// The topology that a name selects, if it selects one.
    pub open spec fn named(name: Seq<char>) -> Option<DcBlockFilterType> {
        if name == "dcj"@ {
            Some(DcBlockFilterType::DcBlockJulius)
        } else {
            None
        }
    }

    /// Selects a topology by its name; a name that selects none is an invalid argument.
    pub fn from_name(name: &str) -> (r: Result<DcBlockFilterType, FilterError>)
        ensures
            r == (match Self::named(name@) {
                Some(t) => Ok::<Self, FilterError>(t),
                None => Err(FilterError::InvalidArgument),
            }),
    {
        if same_text(name, "dcj") {
            Ok(DcBlockFilterType::DcBlockJulius)
        } else {
            Err(FilterError::InvalidArgument)
        }
    }
}

/// The topologies of the narrow-band resonator.
#[derive(Clone, Copy, Debug, PartialEq, Eq, Structural)]
pub enum NarrowFilterType {
    /// Band-pass.
    Bp,
    /// Notch.
    Notch,
}

impl NarrowFilterType {
    /// The topology that a name selects, if it selects one.
    pub open spec fn named(name: Seq<char>) -> Option<NarrowFilterType> {
        if name == "bp"@ {
            Some(NarrowFilterType::Bp)
        } else if name == "notch"@ {
            Some(NarrowFilterType::Notch)
        } else {
            None
        }
    }

    /// Selects a topology by its name; a name that selects none is an invalid argument.
    pub fn from_name(name: &str) -> (r: Result<NarrowFilterType, FilterError>)
        ensures
            r == (match Self::named(name@) {
                Some(t) => Ok::<Self, FilterError>(t),
                None => Err(FilterError::InvalidArgument),
            }),
    {
        if same_text(name, "bp") {
            Ok(NarrowFilterType::Bp)
        } else if same_text(name, "notch") {
            Ok(NarrowFilterType::Notch)
        } else {
            Err(FilterError::InvalidArgument)
        }
    }
}

/// The topologies of the virtual-analog family.
#[derive(Clone, Copy, Debug, PartialEq, Eq, Structural)]
pub enum ZavalishinFilterType {
    /// One pole with zero-delay feedback.
    OnePoleZeroDelay,
    /// One pole, naive integration.
    NaiveOnePole,
    /// One pole, trapezoidal integration.
    TrapIntOnePole,
    /// State-variable filter.
    StateVariable,
}

impl ZavalishinFilterType {
    /// The topology that a name selects, if it selects one.
    pub open spec fn named(name: Seq<char>) -> Option<ZavalishinFilterType> {
        if name == "zdf"@ {
            Some(ZavalishinFilterType::OnePoleZeroDelay)
        } else if name == "naive"@ {
            Some(ZavalishinFilterType::NaiveOnePole)
        } else if name == "trap"@ {
            Some(ZavalishinFilterType::TrapIntOnePole)
        } else if name == "svf"@ {
            Some(ZavalishinFilterType::StateVariable)
        } else {
            None
        }
    }

    /// Selects a topology by its name; a name that selects none is an invalid argument.
    pub fn from_name(name: &str) -> (r: Result<ZavalishinFilterType, FilterError>)
        ensures
            r == (match Self::named(name@) {
                Some(t) => Ok::<Self, FilterError>(t),
                None => Err(FilterError::InvalidArgument),
            }),
    {
        if same_text(name, "zdf") {
            Ok(ZavalishinFilterType::OnePoleZeroDelay)
        } else if same_text(name, "naive") {
            Ok(ZavalishinFilterType::NaiveOnePole)
        } else if same_text(name, "trap") {
            Ok(ZavalishinFilterType::TrapIntOnePole)
        } else if same_text(name, "svf") {
            Ok(ZavalishinFilterType::StateVariable)
        } else {
            Err(FilterError::InvalidArgument)
        }
    }
}

/// The topologies of the first-order Butterworth family.
#[derive(Clone, Copy, Debug, PartialEq, Eq, Structural)]
pub enum ButterFilterType {
    /// Low-pass.
    Lp,
    /// High-pass.
    Hp,
    /// Band-pass: a low-pass followed by a high-pass.
    Bp,
    /// Band-reject: a low-pass and a high-pass, summed.
    Notch,
}

impl ButterFilterType {
    /// The topology that a name selects, if it selects one.
    pub open spec fn named(name: Seq<char>) -> Option<ButterFilterType> {
        if name == "lp"@ {
            Some(ButterFilterType::Lp)
        } else if name == "hp"@ {
            Some(ButterFilterType::Hp)
        } else if name == "bp"@ {
            Some(ButterFilterType::Bp)
        } else if name == "br"@ {
            Some(ButterFilterType::Notch)
        } else {
            None
        }
    }

    /// Selects a topology by its name; a name that selects none is an invalid argument.
    pub fn from_name(name: &str) -> (r: Result<ButterFilterType, FilterError>)
        ensures
            r == (match Self::named(name@) {
                Some(t) => Ok::<Self, FilterError>(t),
                None => Err(FilterError::InvalidArgument),
            }),
    {
        if same_text(name, "lp") {
            Ok(ButterFilterType::Lp)
        } else if same_text(name, "hp") {
            Ok(ButterFilterType::Hp)
        } else if same_text(name, "bp") {
            Ok(ButterFilterType::Bp)
        } else if same_text(name, "br") {
            Ok(ButterFilterType::Notch)
        } else {
            Err(FilterError::InvalidArgument)
        }
    }
}

/// A topology of any family.
#[derive(Clone, Copy, Debug, PartialEq, Eq, Structural)]
pub enum FilterType {
    BiquadType(BiquadFilterType),
    TwoZeroTwoPoleType(TwoZeroTwoPoleFilterType),
    HarmonicType(HarmonicFilterType),
    OnePoleType(OnePoleFilterType),
    DcBlockType(DcBlockFilterType),
    NarrowType(NarrowFilterType),
    ZavalishinType(ZavalishinFilterType),
    ButterType(ButterFilterType),
}

} // verus!
