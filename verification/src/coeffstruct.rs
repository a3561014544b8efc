//! The numeric output of a design step.
use vstd::prelude::*;
use crate::arithmetic::{Sample, ZERO};

verus! {

/// The six coefficients of a second-order section. `a0` is a divisor; the set
/// is not normalised by it.
#[derive(Clone, Copy, Debug, PartialEq, Eq, Structural)]
pub struct BiquadCoeffs {
    pub b0: Sample,
    pub b1: Sample,
    pub b2: Sample,
    pub a0: Sample,
    pub a1: Sample,
    pub a2: Sample,
}

impl BiquadCoeffs {
    /// The set whose six coefficients are given, in the order `b0, b1, b2, a0, a1, a2`.
    pub open spec fn of(coeffs: (Sample, Sample, Sample, Sample, Sample, Sample)) -> BiquadCoeffs {
        BiquadCoeffs {
            b0: coeffs.0,
            b1: coeffs.1,
            b2: coeffs.2,
            a0: coeffs.3,
            a1: coeffs.4,
            a2: coeffs.5,
        }
    }

    /// The six coefficients in the order `b0, b1, b2, a0, a1, a2`.
    pub open spec fn tuple(self) -> (Sample, Sample, Sample, Sample, Sample, Sample) {
        (self.b0, self.b1, self.b2, self.a0, self.a1, self.a2)
    }

    /// The set whose six coefficients are zero.
    pub open spec fn zeros() -> BiquadCoeffs {
        Self::of((ZERO, ZERO, ZERO, ZERO, ZERO, ZERO))
    }

    pub fn new() -> (c: Self)
        ensures
            c == Self::zeros(),
    {
        Self { b0: ZERO, b1: ZERO, b2: ZERO, a0: ZERO, a1: ZERO, a2: ZERO }
    }

    pub fn set_coeffs(&mut self, coeffs: (Sample, Sample, Sample, Sample, Sample, Sample))
        ensures
            *final(self) == Self::of(coeffs),
    {
        self.b0 = coeffs.0;
        self.b1 = coeffs.1;
        self.b2 = coeffs.2;
        self.a0 = coeffs.3;
        self.a1 = coeffs.4;
        self.a2 = coeffs.5;
    }
}

/// The three coefficients of a first-order section.
#[derive(Clone, Copy, Debug, PartialEq, Eq, Structural)]
pub struct OnePoleCoeffs {
    pub b0: Sample,
    pub b1: Sample,
    pub a1: Sample,
}

impl OnePoleCoeffs {
    /// The set whose three coefficients are given, in the order `b0, b1, a1`.
    pub open spec fn of(coeffs: (Sample, Sample, Sample)) -> OnePoleCoeffs {
        OnePoleCoeffs { b0: coeffs.0, b1: coeffs.1, a1: coeffs.2 }
    }

    /// The three coefficients in the order `b0, b1, a1`.
    pub open spec fn tuple(self) -> (Sample, Sample, Sample) {
        (self.b0, self.b1, self.a1)
    }

    /// The set whose three coefficients are zero.
    pub open spec fn zeros() -> OnePoleCoeffs {
        Self::of((ZERO, ZERO, ZERO))
    }

    pub fn new() -> (c: Self)
        ensures
            c == Self::zeros(),
    {
        Self { b0: ZERO, b1: ZERO, a1: ZERO }
    }

    pub fn set_coeffs(&mut self, coeffs: (Sample, Sample, Sample))
        ensures
            *final(self) == Self::of(coeffs),
    {
        self.b0 = coeffs.0;
        self.b1 = coeffs.1;
        self.a1 = coeffs.2;
    }
}

} // verus!
