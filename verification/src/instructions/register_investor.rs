//! Registration of one investor.

use vstd::prelude::*;

use crate::error::TreasuryBondsError;
use crate::state::byte_len;
use crate::state::country_len_valid;
use crate::state::investor::Investor;
use crate::state::investor::FULL_NAMES_LENGTH;
use crate::state::string_byte_len;
use crate::state::Identity;

verus! {

/// The personal details of an investor to be registered.
pub struct RegisterInvestorParams {
    /// Full names of the investor, 1 to 50 bytes.
    pub full_names: String,
    /// Home country of the investor, 2 or 3 bytes.
    pub country: String,
}

/// The first violation, in validation order, among the detail constraints;
/// or `None` where every detail is admissible.
pub open spec fn register_investor_error(params: RegisterInvestorParams) -> Option<
    TreasuryBondsError,
> {
    if !(0 < byte_len(params.full_names@) <= FULL_NAMES_LENGTH) {
        Some(TreasuryBondsError::InvalidFullNamesLength)
    } else if !country_len_valid(params.country@) {
        Some(TreasuryBondsError::InvalidCountryLength)
    } else {
        None
    }
}

/// Validates the investor's details and on success creates the investor
/// record: active, with both balances zeroed.  `owner` is the
/// already-authenticated identity of the new investor.
pub fn register_investor(params: &RegisterInvestorParams, owner: Identity) -> (r: Result<
    Investor,
    TreasuryBondsError,
>)
    ensures
        r is Ok <==> register_investor_error(*params) is None,
        r is Err ==> r->Err_0 == register_investor_error(*params)->0,
        r is Ok ==> r->Ok_0 == (Investor {
            owner,
            full_names: params.full_names,
            country: params.country,
            active: true,
            total_units_treasury_bonds: 0u32,
            available_funds: 0u32,
        }),
        r is Ok ==> r->Ok_0.well_formed(),
{
    let full_names_len = string_byte_len(&params.full_names);
    if !(full_names_len > 0 && full_names_len <= FULL_NAMES_LENGTH) {
        return Err(TreasuryBondsError::InvalidFullNamesLength);
    }

    let country_len = string_byte_len(&params.country);
    if country_len != 3 && country_len != 2 {
        return Err(TreasuryBondsError::InvalidCountryLength);
    }

    Ok(
        Investor {
            owner,
            full_names: params.full_names.clone(),
            country: params.country.clone(),
            active: true,
            total_units_treasury_bonds: 0,
            available_funds: 0,
        },
    )
}

} // verus!
