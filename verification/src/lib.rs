//! The von Mises distribution, the circular analogue of the normal
//! distribution, over IEEE 754 binary64 parameters.
//!
//! The library works on the bit patterns of doubles. On them it decides what
//! can be decided exactly: which patterns are numbers and which of those are
//! positive, which parameters describe a distribution, where its domain ends,
//! and which Bessel values its distribution function may be summed on. The
//! arithmetic of that sum is done on doubles, by the caller.

pub mod bessel;
pub mod binary64;
pub mod distribution;
pub mod error;

pub use crate::error::StatsError;
