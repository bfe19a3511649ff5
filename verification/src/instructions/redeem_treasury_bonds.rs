//! Maturity settlement: an investor redeems a matured holding from the
//! bond's custody vault.

use vstd::prelude::*;

use crate::error::TreasuryBondsError;
use crate::scale::pow10;
use crate::scale::scale_to_base_units;
use crate::state::deposit_base::DepositBase;
use crate::state::investor::Investor;
use crate::state::treasury_bonds::TreasuryBonds;

verus! {

/// The requested settlement amount.
pub struct RedeemTreasuryBondsParams {
    /// Amount to redeem; must equal the investor's available funds exactly.
    pub amount: u32,
}

/// The first reason, in validation order, for which a redeem of `amount`
/// fails against the given records; or `None` where it succeeds.  A redeem
/// needs a matured bond, matches the investor's available funds exactly, and
/// may not draw more than the bond's funds outstanding.
pub open spec fn redeem_treasury_bonds_error(
    amount: u32,
    bond: TreasuryBonds,
    investor: Investor,
    deposit: DepositBase,
) -> Option<TreasuryBondsError> {
    if !bond.is_initialized {
        Some(TreasuryBondsError::AccountNotInitialized)
    } else if !bond.is_matured {
        Some(TreasuryBondsError::InvalidBondMaturityStatus)
    } else if !investor.active {
        Some(TreasuryBondsError::InvalidInvestorStatus)
    } else if !deposit.is_initialized {
        Some(TreasuryBondsError::AccountNotInitialized)
    } else if amount == 0 {
        Some(TreasuryBondsError::InvalidAmount)
    } else if investor.available_funds == 0 {
        Some(TreasuryBondsError::InsufficientFunds)
    } else if investor.available_funds != amount {
        Some(TreasuryBondsError::MismatchedAmount)
    } else if bond.total_amounts_accepted < amount {
        Some(TreasuryBondsError::InsufficientFunds)
    } else if bond.unit_cost_of_treasury_bonds * amount > u32::MAX {
        Some(TreasuryBondsError::InvalidArithmeticOperation)
    } else if investor.total_units_treasury_bonds < bond.unit_cost_of_treasury_bonds * amount {
        Some(TreasuryBondsError::InvalidArithmeticOperation)
    } else if pow10(bond.decimals as nat) > u32::MAX {
        Some(TreasuryBondsError::InvalidArithmeticOperation)
    } else {
        None
    }
}

/// Settles the investor's whole holding in the matured bond: deducts
/// `amount` (exactly the investor's available funds, leaving them zero) and
/// `unit_cost * amount` units from the investor, and draws `amount` down
/// from the bond's funds-outstanding counter.  Returns the amount scaled to
/// base units, `amount * 10^decimals`, for the external collaborator to move
/// from the bond's custody vault — whose signing authority it derives from
/// the deposit record's tags — to the investor's custody.  Any failure
/// leaves both records exactly as they were.
pub fn redeem_treasury_bonds(
    params: &RedeemTreasuryBondsParams,
    treasury_bonds: &mut TreasuryBonds,
    investor: &mut Investor,
    deposit_account: &DepositBase,
) -> (r: Result<u64, TreasuryBondsError>)
    ensures
        r is Ok <==> redeem_treasury_bonds_error(
            params.amount,
            *old(treasury_bonds),
            *old(investor),
            *deposit_account,
        ) is None,
        r is Err ==> r->Err_0 == redeem_treasury_bonds_error(
            params.amount,
            *old(treasury_bonds),
            *old(investor),
            *deposit_account,
        )->0,
        r is Err ==> *final(treasury_bonds) == *old(treasury_bonds) && *final(investor) == *old(
            investor,
        ),
        old(treasury_bonds).is_initialized && !old(treasury_bonds).is_matured ==> r->Err_0
            == TreasuryBondsError::InvalidBondMaturityStatus,
        old(treasury_bonds).is_initialized && old(treasury_bonds).is_matured && old(
            investor,
        ).active && deposit_account.is_initialized && params.amount != 0 && old(
            investor,
        ).available_funds != 0 && old(investor).available_funds != params.amount ==> r->Err_0
            == TreasuryBondsError::MismatchedAmount,
        r is Ok ==> old(investor).available_funds == params.amount,
        r is Ok ==> r->Ok_0 == params.amount * pow10(old(treasury_bonds).decimals as nat),
        r is Ok ==> final(investor).total_units_treasury_bonds == old(
            investor,
        ).total_units_treasury_bonds - old(treasury_bonds).unit_cost_of_treasury_bonds
            * params.amount,
        r is Ok ==> final(investor).available_funds == 0,
        r is Ok ==> final(treasury_bonds).total_amounts_accepted == old(
            treasury_bonds,
        ).total_amounts_accepted - params.amount,
        r is Ok ==> final(treasury_bonds).investors@ == old(treasury_bonds).investors@,
        old(treasury_bonds).same_terms(*final(treasury_bonds)),
        old(investor).same_identity(*final(investor)),
        old(treasury_bonds).well_formed() ==> final(treasury_bonds).well_formed(),
{
    if !treasury_bonds.is_initialized {
        return Err(TreasuryBondsError::AccountNotInitialized);
    }
    // only a matured bond settles against the custody vault
    if !treasury_bonds.is_matured {
        return Err(TreasuryBondsError::InvalidBondMaturityStatus);
    }
    if !investor.active {
        return Err(TreasuryBondsError::InvalidInvestorStatus);
    }
    if !deposit_account.is_initialized {
        return Err(TreasuryBondsError::AccountNotInitialized);
    }

    let amount = params.amount;
    if amount == 0 {
        return Err(TreasuryBondsError::InvalidAmount);
    }

    // the investor must hold funds, and exactly the requested amount
    if investor.available_funds == 0 {
        return Err(TreasuryBondsError::InsufficientFunds);
    }
    if investor.available_funds != amount {
        return Err(TreasuryBondsError::MismatchedAmount);
    }

    // the bond's funds outstanding must cover the settlement
    if treasury_bonds.total_amounts_accepted < amount {
        return Err(TreasuryBondsError::InsufficientFunds);
    }

    // the unit holdings settled: unit cost times amount
    let unit_treasury_bonds = match treasury_bonds.unit_cost_of_treasury_bonds.checked_mul(
        amount,
    ) {
        Some(v) => v,
        None => {
            return Err(TreasuryBondsError::InvalidArithmeticOperation);
        },
    };

    // recompute both ledgers with checked arithmetic; commit nothing yet
    let new_total_units = match investor.total_units_treasury_bonds.checked_sub(
        unit_treasury_bonds,
    ) {
        Some(v) => v,
        None => {
            return Err(TreasuryBondsError::InvalidArithmeticOperation);
        },
    };

    let new_available_funds = match investor.available_funds.checked_sub(amount) {
        Some(v) => v,
        None => {
            return Err(TreasuryBondsError::InvalidArithmeticOperation);
        },
    };

    let new_total_amounts_accepted = match treasury_bonds.total_amounts_accepted.checked_sub(
        amount,
    ) {
        Some(v) => v,
        None => {
            return Err(TreasuryBondsError::InvalidArithmeticOperation);
        },
    };

    let base_units = match scale_to_base_units(amount, treasury_bonds.decimals) {
        Ok(v) => v,
        Err(e) => {
            return Err(e);
        },
    };

    // every step succeeded: commit the mutations atomically
    investor.total_units_treasury_bonds = new_total_units;
    investor.available_funds = new_available_funds;
    treasury_bonds.total_amounts_accepted = new_total_amounts_accepted;

    Ok(base_units)
}

} // verus!
