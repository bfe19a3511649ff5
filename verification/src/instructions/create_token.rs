//! Creation of the fungible unit representing bond ownership.

use vstd::prelude::*;

use crate::error::TreasuryBondsError;
use crate::scale::pow10;
use crate::scale::scale_to_base_units;
use crate::state::treasury_bonds::TreasuryBonds;

verus! {

/// The amount of units to issue.
pub struct CreateTokenParams {
    /// Amount to mint, positive.
    pub amount: u32,
}

/// Validates and scales the amount of value-bearing units to issue for the
/// bond.  Returns the amount in base units, `amount * 10^decimals`, for the
/// external asset-issuance collaborator to mint; the creation of the unit
/// itself is that collaborator's work.  No ledger record is mutated.
pub fn create_token(params: &CreateTokenParams, treasury_bonds: &TreasuryBonds) -> (r: Result<
    u64,
    TreasuryBondsError,
>)
    ensures
        r is Ok <==> treasury_bonds.is_initialized && params.amount != 0 && pow10(
            treasury_bonds.decimals as nat,
        ) <= u32::MAX,
        r is Ok ==> r->Ok_0 == params.amount * pow10(treasury_bonds.decimals as nat),
        !treasury_bonds.is_initialized ==> r->Err_0 == TreasuryBondsError::AccountNotInitialized,
        treasury_bonds.is_initialized && params.amount == 0 ==> r->Err_0
            == TreasuryBondsError::InvalidAmount,
        treasury_bonds.is_initialized && params.amount != 0 && pow10(
            treasury_bonds.decimals as nat,
        ) > u32::MAX ==> r->Err_0 == TreasuryBondsError::InvalidArithmeticOperation,
{
    if !treasury_bonds.is_initialized {
        return Err(TreasuryBondsError::AccountNotInitialized);
    }
    if params.amount == 0 {
        return Err(TreasuryBondsError::InvalidAmount);
    }
    scale_to_base_units(params.amount, treasury_bonds.decimals)
}

} // verus!
