//! Secondary transfer: a seller passes a holding to a buyer, whole.

use vstd::prelude::*;

use crate::error::TreasuryBondsError;
use crate::scale::pow10;
use crate::scale::scale_to_base_units;
use crate::state::investor::Investor;
use crate::state::treasury_bonds::TreasuryBonds;

verus! {

/// The requested transfer amount.
pub struct SellTreasuryBondsParams {
    /// Amount to sell; must equal the seller's available funds exactly.
    pub amount: u32,
}

/// The first reason, in validation order, for which a sell of `amount` fails
/// against the given records; or `None` where it succeeds.  A sell needs an
/// unmatured bond and matches the seller's available funds exactly: there
/// are no partial sells.
pub open spec fn sell_treasury_bonds_error(
    amount: u32,
    bond: TreasuryBonds,
    seller: Investor,
    buyer: Investor,
) -> Option<TreasuryBondsError> {
    if !bond.is_initialized {
        Some(TreasuryBondsError::AccountNotInitialized)
    } else if bond.is_matured {
        Some(TreasuryBondsError::InvalidBondMaturityStatus)
    } else if !seller.active {
        Some(TreasuryBondsError::InvalidInvestorStatus)
    } else if !buyer.active {
        Some(TreasuryBondsError::InvalidInvestorStatus)
    } else if amount == 0 {
        Some(TreasuryBondsError::InvalidAmount)
    } else if seller.available_funds == 0 {
        Some(TreasuryBondsError::InsufficientFunds)
    } else if seller.available_funds != amount {
        Some(TreasuryBondsError::MismatchedAmount)
    } else if bond.unit_cost_of_treasury_bonds * amount > u32::MAX {
        Some(TreasuryBondsError::InvalidArithmeticOperation)
    } else if seller.total_units_treasury_bonds < bond.unit_cost_of_treasury_bonds * amount {
        Some(TreasuryBondsError::InvalidArithmeticOperation)
    } else if buyer.total_units_treasury_bonds + bond.unit_cost_of_treasury_bonds * amount
        > u32::MAX {
        Some(TreasuryBondsError::InvalidArithmeticOperation)
    } else if buyer.available_funds + amount > u32::MAX {
        Some(TreasuryBondsError::InvalidArithmeticOperation)
    } else if pow10(bond.decimals as nat) > u32::MAX {
        Some(TreasuryBondsError::InvalidArithmeticOperation)
    } else {
        None
    }
}

/// Moves the seller's whole holding in the bond to the buyer: deducts
/// `amount` (exactly the seller's available funds, leaving them zero) and
/// `unit_cost * amount` units from the seller and adds the same to the
/// buyer.  The bond aggregate is read, never mutated.  Returns the amount
/// scaled to base units, `amount * 10^decimals`, for the external
/// collaborator to move from the seller's custody to the buyer's.  Any
/// failure leaves both investor records exactly as they were.
pub fn sell_treasury_bonds(
    params: &SellTreasuryBondsParams,
    treasury_bonds: &TreasuryBonds,
    seller_investor: &mut Investor,
    buyer_investor: &mut Investor,
) -> (r: Result<u64, TreasuryBondsError>)
    ensures
        r is Ok <==> sell_treasury_bonds_error(
            params.amount,
            *treasury_bonds,
            *old(seller_investor),
            *old(buyer_investor),
        ) is None,
        r is Err ==> r->Err_0 == sell_treasury_bonds_error(
            params.amount,
            *treasury_bonds,
            *old(seller_investor),
            *old(buyer_investor),
        )->0,
        r is Err ==> *final(seller_investor) == *old(seller_investor) && *final(buyer_investor)
            == *old(buyer_investor),
        treasury_bonds.is_initialized && treasury_bonds.is_matured ==> r->Err_0
            == TreasuryBondsError::InvalidBondMaturityStatus,
        treasury_bonds.is_initialized && !treasury_bonds.is_matured && old(
            seller_investor,
        ).active && old(buyer_investor).active && params.amount != 0 && old(
            seller_investor,
        ).available_funds != 0 && old(seller_investor).available_funds != params.amount ==> r->Err_0
            == TreasuryBondsError::MismatchedAmount,
        r is Ok ==> old(seller_investor).available_funds == params.amount,
        r is Ok ==> r->Ok_0 == params.amount * pow10(treasury_bonds.decimals as nat),
        r is Ok ==> final(seller_investor).total_units_treasury_bonds == old(
            seller_investor,
        ).total_units_treasury_bonds - treasury_bonds.unit_cost_of_treasury_bonds * params.amount,
        r is Ok ==> final(seller_investor).available_funds == 0,
        r is Ok ==> final(buyer_investor).total_units_treasury_bonds == old(
            buyer_investor,
        ).total_units_treasury_bonds + treasury_bonds.unit_cost_of_treasury_bonds * params.amount,
        r is Ok ==> final(buyer_investor).available_funds == old(buyer_investor).available_funds
            + params.amount,
        old(seller_investor).same_identity(*final(seller_investor)),
        old(buyer_investor).same_identity(*final(buyer_investor)),
{
    if !treasury_bonds.is_initialized {
        return Err(TreasuryBondsError::AccountNotInitialized);
    }
    // a matured bond can only be redeemed, not sold on
    if treasury_bonds.is_matured {
        return Err(TreasuryBondsError::InvalidBondMaturityStatus);
    }
    if !seller_investor.active {
        return Err(TreasuryBondsError::InvalidInvestorStatus);
    }
    if !buyer_investor.active {
        return Err(TreasuryBondsError::InvalidInvestorStatus);
    }

    let amount = params.amount;
    if amount == 0 {
        return Err(TreasuryBondsError::InvalidAmount);
    }

    // the seller must hold funds, and exactly the requested amount
    if seller_investor.available_funds == 0 {
        return Err(TreasuryBondsError::InsufficientFunds);
    }
    if seller_investor.available_funds != amount {
        return Err(TreasuryBondsError::MismatchedAmount);
    }

    // the unit holdings sold: unit cost times amount
    let unit_treasury_bonds = match treasury_bonds.unit_cost_of_treasury_bonds.checked_mul(
        amount,
    ) {
        Some(v) => v,
        None => {
            return Err(TreasuryBondsError::InvalidArithmeticOperation);
        },
    };

    // recompute both investors with checked arithmetic; commit nothing yet
    let seller_total_units = match seller_investor.total_units_treasury_bonds.checked_sub(
        unit_treasury_bonds,
    ) {
        Some(v) => v,
        None => {
            return Err(TreasuryBondsError::InvalidArithmeticOperation);
        },
    };

    let seller_available_funds = match seller_investor.available_funds.checked_sub(amount) {
        Some(v) => v,
        None => {
            return Err(TreasuryBondsError::InvalidArithmeticOperation);
        },
    };

    let buyer_total_units = match buyer_investor.total_units_treasury_bonds.checked_add(
        unit_treasury_bonds,
    ) {
        Some(v) => v,
        None => {
            return Err(TreasuryBondsError::InvalidArithmeticOperation);
        },
    };

    let buyer_available_funds = match buyer_investor.available_funds.checked_add(amount) {
        Some(v) => v,
        None => {
            return Err(TreasuryBondsError::InvalidArithmeticOperation);
        },
    };

    let base_units = match scale_to_base_units(amount, treasury_bonds.decimals) {
        Ok(v) => v,
        Err(e) => {
            return Err(e);
        },
    };

    // every step succeeded: commit the mutations atomically
    seller_investor.total_units_treasury_bonds = seller_total_units;
    seller_investor.available_funds = seller_available_funds;
    buyer_investor.total_units_treasury_bonds = buyer_total_units;
    buyer_investor.available_funds = buyer_available_funds;

    Ok(base_units)
}

} // verus!
