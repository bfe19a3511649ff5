//! The per-investor ledger record.

use vstd::prelude::*;

use crate::state::byte_len;
use crate::state::country_len_valid;
use crate::state::Identity;

verus! {

/// Maximum length in bytes of an investor's full names.
pub const FULL_NAMES_LENGTH: usize = 50;

/// One ledger row per investor: identity, active flag and the two
/// accumulated balances that buy, sell and redeem recompute.
pub struct Investor {
    /// Identity of the investor who owns this record.
    pub owner: Identity,
    /// Full names of the investor, 1 to 50 bytes.
    pub full_names: String,
    /// Home country of the investor, 2 or 3 bytes.
    pub country: String,
    /// Whether the investor may take part in operations.
    pub active: bool,
    /// Total units of treasury bonds held by the investor.
    pub total_units_treasury_bonds: u32,
    /// Funds available to the investor, accrued on buy, drawn on sell and
    /// redeem.
    pub available_funds: u32,
}

impl Investor {
    /// The text fields obey their length constraints.
    pub open spec fn well_formed(self) -> bool {
        &&& 0 < byte_len(self.full_names@) <= FULL_NAMES_LENGTH
        &&& country_len_valid(self.country@)
    }

    /// Everything but the two balances: what buy, sell and redeem leave
    /// untouched.
    pub open spec fn same_identity(self, other: Self) -> bool {
        &&& other.owner == self.owner
        &&& other.full_names == self.full_names
        &&& other.country == self.country
        &&& other.active == self.active
    }
}

} // verus!
