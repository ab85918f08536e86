//! The Bessel values that the series for the distribution function sums.
//!
//! The values I_0(κ) and I_1(κ) … I_N(κ) of the modified Bessel function of
//! the first kind come from a provider outside of this library. The series
//! divides each I_j by I_0, so the provider may scale all of them by one
//! positive factor. Before the series is summed the values pass through
//! `BesselTable::new`, so that a provider that overflowed, or handed back too
//! few values, stops the evaluation instead of corrupting its result.

use crate::binary64::Binary64;
use crate::error::StatsError;
use vstd::prelude::*;

verus! {

/// The order at which the series is truncated: it sums I_1 to I_100.
pub const TRUNCATION_ORDER: usize = 100;

/// Whether the series can be evaluated on these values: I_0 is finite and
/// strictly positive, so that it can divide, and there is one finite value for
/// each order from 1 to `TRUNCATION_ORDER`.
pub open spec fn usable(zeroth: Binary64, higher: Seq<Binary64>) -> bool {
    &&& zeroth@.is_finite()
    &&& zeroth@.is_positive()
    &&& higher.len() == TRUNCATION_ORDER
    &&& forall|k: int| 0 <= k < higher.len() ==> (#[trigger] higher[k])@.is_finite()
}

/// Bessel values that the series can be evaluated on.
#[derive(Debug)]
pub struct BesselTable {
    zeroth: Binary64,
    higher: Vec<Binary64>,
}

impl BesselTable {
    #[verifier::type_invariant]
    spec fn well_formed(self) -> bool {
        usable(self.zeroth, self.higher@)
    }

    /// I_0(κ), as contracts see it.
    pub closed spec fn spec_zeroth(self) -> Binary64 {
        self.zeroth
    }

    /// I_1(κ) … I_N(κ), as contracts see them: order j is at index j - 1.
    pub closed spec fn spec_higher(self) -> Seq<Binary64> {
        self.higher@
    }

    /// Takes what the provider handed back: `zeroth` for I_0(κ), and `higher`
    /// for I_1(κ) … I_N(κ) in the order of their orders.
    ///
    /// Fails with `ProviderFailure` unless the values are usable.
    pub fn new(zeroth: Binary64, higher: Vec<Binary64>) -> (r: Result<BesselTable, StatsError>)
        ensures
            match r {
                Ok(table) => usable(zeroth, higher@) && table.spec_zeroth() == zeroth
                    && table.spec_higher() == higher@,
                Err(e) => !usable(zeroth, higher@) && e == StatsError::ProviderFailure,
            },
    {
        if !zeroth.is_finite() || !zeroth.is_positive() || higher.len() != TRUNCATION_ORDER {
            return Err(StatsError::ProviderFailure);
        }
        let mut k: usize = 0;
        while k < higher.len()
            invariant
                k <= higher.len(),
                forall|i: int| 0 <= i < k ==> (#[trigger] higher@[i])@.is_finite(),
            decreases higher.len() - k,
        {
            if !higher[k].is_finite() {
                return Err(StatsError::ProviderFailure);
            }
            k += 1;
        }
        Ok(BesselTable { zeroth, higher })
    }

    /// I_0(κ): finite and strictly positive.
    pub fn zeroth(&self) -> (r: Binary64)
        ensures
            r == self.spec_zeroth(),
            r@.is_finite(),
            r@.is_positive(),
            usable(self.spec_zeroth(), self.spec_higher()),
    {
        proof {
            use_type_invariant(self);
        }
        self.zeroth
    }

    /// I_j(κ) for an order j from 1 to `TRUNCATION_ORDER`, which is finite, and
    /// `None` for any other order.
    pub fn order(&self, j: usize) -> (r: Option<Binary64>)
        ensures
            usable(self.spec_zeroth(), self.spec_higher()),
            match r {
                Some(value) => 1 <= j <= TRUNCATION_ORDER && value == self.spec_higher()[j - 1]
                    && value@.is_finite(),
                None => j < 1 || j > TRUNCATION_ORDER,
            },
    {
        proof {
            use_type_invariant(self);
        }
        if 1 <= j && j <= TRUNCATION_ORDER {
            Some(self.higher[j - 1])
        } else {
            None
        }
    }
}

} // verus!
