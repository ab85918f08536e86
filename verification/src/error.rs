//! The errors of the library.

use vstd::prelude::*;

verus! {

/// Why an operation on a distribution failed.
#[derive(Debug, Clone, Copy, PartialEq, Eq, Structural)]
pub enum StatsError {
    /// A parameter or a query point is a NaN, or a concentration is not
    /// strictly positive.
    InvalidParameter,
    /// The provider of Bessel values failed, or handed back values that the
    /// series cannot be evaluated on.
    ProviderFailure,
}

} // verus!
