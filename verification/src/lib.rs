//! Recursive digital filters for streaming signals.
//!
//! A filter is designed from physical parameters (a corner frequency, a
//! quality factor, a bandwidth, a gain) into a set of coefficients, and is
//! then applied to a signal one sample or one buffer at a time; it keeps its
//! delay state from call to call. The topologies form a closed set, one enum
//! per family.
//!
//! Samples are bit patterns of IEEE-754 binary64 numbers. The arithmetic on
//! them is the caller's: every function that computes takes an evaluator of
//! primitive operations (see [`arithmetic`]), and its contract states the
//! result over any mathematical function that the evaluator computes.
pub mod arithmetic;
pub mod biquadeq;
pub mod butter;
pub mod cascade;
pub mod coeffstruct;
pub mod dc;
pub mod delayline;
pub mod error;
pub mod filtertype;
pub mod harmonic;
pub mod narrow;
pub mod onepole;
pub mod text;
pub mod twozerotwopole;
pub mod zavalishin;
