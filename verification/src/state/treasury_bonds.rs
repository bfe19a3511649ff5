//! The per-issuance bond aggregate.

use vstd::prelude::*;

use crate::state::bond_issuer::BondIssuer;
use crate::state::byte_len;
use crate::state::country_len_valid;
use crate::state::Identity;

verus! {

/// Maximum length in bytes of a bond issue number.
pub const ISSUER_NO_LENGTH: usize = 20;

/// Maximum length in bytes of a value or redemption date.
pub const DATE_LENGTH: usize = 20;

/// Smallest admissible tenor, in years.
pub const TENOR_MIN: u8 = 2;

/// Largest admissible tenor, in years.
pub const TENOR_MAX: u8 = 30;

/// Capacity of a bond's investor roster.
pub const MAX_INVESTORS: usize = 10;

/// One record per bond issuance: the immutable terms, the funds-outstanding
/// counter, the maturity flag and the roster of participating investors.
pub struct TreasuryBonds {
    /// Identity of the administrator who registered the bond.
    pub owner: Identity,
    /// The issuing party.
    pub issuer: BondIssuer,
    /// Country where the bond is auctioned, 2 or 3 bytes.
    pub country: String,
    /// Issue number of the bond, 1 to 20 bytes.
    pub issue_no: String,
    /// 1 for fixed-coupon, 2 for infrastructure.
    pub type_of_bond: u8,
    /// Maturity period in years, 2 to 30.
    pub tenor: u8,
    /// Coupon rate in percent, positive.
    pub coupon_rate: u8,
    /// Total amounts offered for the issuance, positive.
    pub total_amounts_offered: u32,
    /// The single funds-outstanding counter of the issuance: buy accrues the
    /// accepted amount here and redeem draws the settled amount back down.
    /// Nothing caps it at `total_amounts_offered`; callers must not assume
    /// that bound holds.
    pub total_amounts_accepted: u32,
    /// Smallest amount a subscription may bid, positive.
    pub minimum_bid_amount: u32,
    /// Set once at registration; every transfer operation requires it.
    pub is_initialized: bool,
    /// Maturity flag: buy and sell need it clear, redeem needs it set.  No
    /// operation here raises it; the transition is an injected external
    /// event.
    pub is_matured: bool,
    /// Append log of subscribing investors, at most `MAX_INVESTORS`; entries
    /// are not deduplicated.
    pub investors: Vec<Identity>,
    /// Unit cost of the bond, positive.
    pub unit_cost_of_treasury_bonds: u32,
    /// Decimals of the value-bearing unit, positive; an amount is scaled to
    /// base units by `10^decimals`.
    pub decimals: u8,
    /// Value date of the bond, 1 to 20 bytes.
    pub value_date: String,
    /// Redemption date of the bond, 1 to 20 bytes.
    pub redemption_date: String,
}

impl TreasuryBonds {
    /// The constraints registration establishes and every operation keeps.
    pub open spec fn well_formed(self) -> bool {
        &&& self.issuer.well_formed()
        &&& country_len_valid(self.country@)
        &&& 0 < byte_len(self.issue_no@) <= ISSUER_NO_LENGTH
        &&& (self.type_of_bond == 1 || self.type_of_bond == 2)
        &&& TENOR_MIN <= self.tenor <= TENOR_MAX
        &&& self.coupon_rate > 0
        &&& self.total_amounts_offered > 0
        &&& self.minimum_bid_amount > 0
        &&& self.unit_cost_of_treasury_bonds > 0
        &&& self.decimals > 0
        &&& 0 < byte_len(self.value_date@) <= DATE_LENGTH
        &&& 0 < byte_len(self.redemption_date@) <= DATE_LENGTH
        &&& self.investors@.len() <= MAX_INVESTORS
    }

    /// The immutable terms: everything buy and redeem leave untouched, that
    /// is every field but the funds-outstanding counter and the roster.
    pub open spec fn same_terms(self, other: Self) -> bool {
        &&& other.owner == self.owner
        &&& other.issuer == self.issuer
        &&& other.country == self.country
        &&& other.issue_no == self.issue_no
        &&& other.type_of_bond == self.type_of_bond
        &&& other.tenor == self.tenor
        &&& other.coupon_rate == self.coupon_rate
        &&& other.total_amounts_offered == self.total_amounts_offered
        &&& other.minimum_bid_amount == self.minimum_bid_amount
        &&& other.is_initialized == self.is_initialized
        &&& other.is_matured == self.is_matured
        &&& other.unit_cost_of_treasury_bonds == self.unit_cost_of_treasury_bonds
        &&& other.decimals == self.decimals
        &&& other.value_date == self.value_date
        &&& other.redemption_date == self.redemption_date
    }
}

} // verus!
