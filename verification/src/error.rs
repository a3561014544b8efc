//! The conditions that the library reports to its caller.
use vstd::prelude::*;

verus! {

/// Why a construction or a design step was refused.
#[derive(Clone, Copy, Debug, PartialEq, Eq, Structural)]
pub enum FilterError {
    /// The topology name is not known, or a parameter that the topology needs is missing.
    InvalidArgument,
    /// A delay-line length or a cascade order is zero, or the sampling rate is not positive.
    InvalidConfiguration,
}

impl FilterError {
    /// A short description for the caller to show.
    pub fn message(&self) -> (s: String)
        ensures
            s@ == (match *self {
                FilterError::InvalidArgument => "invalid argument"@,
                FilterError::InvalidConfiguration => "invalid configuration"@,
            }),
    {
        match self {
            FilterError::InvalidArgument => "invalid argument".to_owned(),
            FilterError::InvalidConfiguration => "invalid configuration".to_owned(),
        }
    }
}

} // verus!
