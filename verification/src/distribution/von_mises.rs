//! The von Mises distribution: its validated parameters and its domain.

use crate::binary64::Binary64;
use crate::binary64::Number;
use crate::error::StatsError;
use vstd::prelude::*;
use vstd::std_specs::cmp::PartialEqSpecImpl;

verus! {

/// Whether a location and a concentration describe a von Mises distribution:
/// neither is a NaN, and the concentration is strictly positive.
pub open spec fn valid_parameters(location: Binary64, concentration: Binary64) -> bool {
    location@ != Number::NotANumber && concentration@.is_positive()
}

/// The parameters of a distribution, as contracts see them.
pub struct Parameters {
    pub location: Binary64,
    pub concentration: Binary64,
}

/// A von Mises distribution with location μ and concentration κ.
///
/// Every value of this type holds valid parameters, and nothing changes them
/// after construction.
#[derive(Debug, Clone, Copy)]
pub struct VonMises {
    location: Binary64,
    concentration: Binary64,
}

impl View for VonMises {
    type V = Parameters;

    closed spec fn view(&self) -> Parameters {
        Parameters { location: self.location, concentration: self.concentration }
    }
}

impl VonMises {
    #[verifier::type_invariant]
    spec fn well_formed(self) -> bool {
        valid_parameters(self.location, self.concentration)
    }

    /// The distribution with the given location and concentration.
    ///
    /// Fails with `InvalidParameter` if either is a NaN or if the
    /// concentration is zero or negative; infinite values are accepted.
    pub fn new(location: Binary64, concentration: Binary64) -> (r: Result<VonMises, StatsError>)
        ensures
            match r {
                Ok(d) => valid_parameters(location, concentration) && d@ == (Parameters {
                    location,
                    concentration,
                }),
                Err(e) => !valid_parameters(location, concentration) && e
                    == StatsError::InvalidParameter,
            },
    {
        if location.is_nan() || !concentration.is_positive() {
            Err(StatsError::InvalidParameter)
        } else {
            Ok(VonMises { location, concentration })
        }
    }

    /// The location μ, which is never a NaN.
    pub fn location(&self) -> (r: Binary64)
        ensures
            r == self@.location,
            r@ != Number::NotANumber,
            valid_parameters(self@.location, self@.concentration),
    {
        proof {
            use_type_invariant(self);
        }
        self.location
    }

    /// The concentration κ, which is strictly positive.
    pub fn concentration(&self) -> (r: Binary64)
        ensures
            r == self@.concentration,
            r@.is_positive(),
            valid_parameters(self@.location, self@.concentration),
    {
        proof {
            use_type_invariant(self);
        }
        self.concentration
    }

    /// Whether the distribution function can be evaluated at `x`.
    ///
    /// Fails with `InvalidParameter` if `x` is a NaN. Any other point passes:
    /// a point outside of the principal domain is not brought back into it.
    pub fn check_point(&self, x: Binary64) -> (r: Result<(), StatsError>)
        ensures
            match r {
                Ok(_) => x@ != Number::NotANumber,
                Err(e) => x@ == Number::NotANumber && e == StatsError::InvalidParameter,
            },
    {
        if x.is_nan() {
            Err(StatsError::InvalidParameter)
        } else {
            Ok(())
        }
    }

    /// The lower end of the principal domain, -π, whatever the parameters.
    pub fn min(&self) -> (r: Binary64)
        ensures
            r == Binary64::spec_pi().opposite(),
            r@ == Binary64::spec_pi()@.negated(),
    {
        Binary64::pi().negated()
    }

    /// The upper end of the principal domain, π, whatever the parameters.
    pub fn max(&self) -> (r: Binary64)
        ensures
            r == Binary64::spec_pi(),
    {
        Binary64::pi()
    }
}

impl PartialEq for VonMises {
    /// Two distributions are equal when their locations and their
    /// concentrations are equal as doubles.
    fn eq(&self, other: &VonMises) -> (r: bool) {
        self.location == other.location && self.concentration == other.concentration
    }
}

impl PartialEqSpecImpl for VonMises {
    open spec fn obeys_eq_spec() -> bool {
        true
    }

    open spec fn eq_spec(&self, other: &VonMises) -> bool {
        self@.location.equals(other@.location) && self@.concentration.equals(
            other@.concentration,
        )
    }
}

} // verus!
