//! The registry of approved bond issuers.

use vstd::prelude::*;

use crate::state::bond_issuer::BondIssuer;

verus! {

/// Capacity of the issuer registry.
pub const MAX_ISSUERS: usize = 5;

/// The bounded, append-only registry of approved bond issuers.  Created once
/// by the administrative bootstrap; entries are never removed.
pub struct TreasuryBondsConfigs {
    /// Approved issuers, in order of registration; at most `MAX_ISSUERS`.
    pub issuers: Vec<BondIssuer>,
    /// Set once by the bootstrap; bond registration requires it.
    pub is_initialized: bool,
}

impl TreasuryBondsConfigs {
    /// The registry never exceeds its capacity and holds only well-formed
    /// issuer names.
    pub open spec fn well_formed(self) -> bool {
        &&& self.issuers@.len() <= MAX_ISSUERS
        &&& forall|i: int|
            0 <= i < self.issuers@.len() ==> (#[trigger] self.issuers@[i]).well_formed()
    }
}

} // verus!
