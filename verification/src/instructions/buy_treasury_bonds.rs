//! Primary subscription: an investor buys into a bond issuance.

use vstd::prelude::*;

use crate::error::TreasuryBondsError;
use crate::scale::pow10;
use crate::scale::scale_to_base_units;
use crate::state::investor::Investor;
use crate::state::treasury_bonds::TreasuryBonds;
use crate::state::treasury_bonds::MAX_INVESTORS;

verus! {

/// The requested subscription amount.
pub struct BuyTreasuryBondsParams {
    /// Amount to buy; positive and at least the bond's minimum bid.
    pub amount: u32,
}

/// The first reason, in validation order, for which a buy of `amount` fails
/// against the given records; or `None` where it succeeds.
pub open spec fn buy_treasury_bonds_error(
    amount: u32,
    bond: TreasuryBonds,
    investor: Investor,
) -> Option<TreasuryBondsError> {
    if !bond.is_initialized {
        Some(TreasuryBondsError::AccountNotInitialized)
    } else if !investor.active {
        Some(TreasuryBondsError::InvalidInvestorStatus)
    } else if amount == 0 {
        Some(TreasuryBondsError::InvalidAmount)
    } else if amount < bond.minimum_bid_amount {
        Some(TreasuryBondsError::InvalidMinimumBidAmount)
    } else if bond.unit_cost_of_treasury_bonds * amount > u32::MAX {
        Some(TreasuryBondsError::InvalidArithmeticOperation)
    } else if investor.total_units_treasury_bonds + bond.unit_cost_of_treasury_bonds * amount
        > u32::MAX {
        Some(TreasuryBondsError::InvalidArithmeticOperation)
    } else if investor.available_funds + amount > u32::MAX {
        Some(TreasuryBondsError::InvalidArithmeticOperation)
    } else if bond.total_amounts_accepted + amount > u32::MAX {
        Some(TreasuryBondsError::InvalidArithmeticOperation)
    } else if bond.investors@.len() >= MAX_INVESTORS {
        Some(TreasuryBondsError::CapacityExceeded)
    } else if pow10(bond.decimals as nat) > u32::MAX {
        Some(TreasuryBondsError::InvalidArithmeticOperation)
    } else {
        None
    }
}

/// Subscribes the investor to the bond: adds `amount` to the investor's
/// available funds and the bond's funds-outstanding counter, adds
/// `unit_cost * amount` to the investor's unit holdings, and appends the
/// investor to the bond's roster.  Returns the amount scaled to base units,
/// `amount * 10^decimals`, for the external collaborator to move from the
/// buyer's custody to the bond's custody.  Any failure leaves both records
/// exactly as they were.
pub fn buy_treasury_bonds(
    params: &BuyTreasuryBondsParams,
    treasury_bonds: &mut TreasuryBonds,
    investor: &mut Investor,
) -> (r: Result<u64, TreasuryBondsError>)
    ensures
        r is Ok <==> buy_treasury_bonds_error(
            params.amount,
            *old(treasury_bonds),
            *old(investor),
        ) is None,
        r is Err ==> r->Err_0 == buy_treasury_bonds_error(
            params.amount,
            *old(treasury_bonds),
            *old(investor),
        )->0,
        r is Err ==> *final(treasury_bonds) == *old(treasury_bonds) && *final(investor) == *old(
            investor,
        ),
        old(treasury_bonds).is_initialized && old(investor).active && params.amount != 0
            && params.amount >= old(treasury_bonds).minimum_bid_amount && old(
            treasury_bonds,
        ).unit_cost_of_treasury_bonds * params.amount > u32::MAX ==> r->Err_0
            == TreasuryBondsError::InvalidArithmeticOperation,
        r is Ok ==> r->Ok_0 == params.amount * pow10(old(treasury_bonds).decimals as nat),
        r is Ok ==> final(investor).total_units_treasury_bonds == old(
            investor,
        ).total_units_treasury_bonds + old(treasury_bonds).unit_cost_of_treasury_bonds
            * params.amount,
        r is Ok ==> final(investor).available_funds == old(investor).available_funds
            + params.amount,
        r is Ok ==> final(treasury_bonds).total_amounts_accepted == old(
            treasury_bonds,
        ).total_amounts_accepted + params.amount,
        r is Ok ==> final(treasury_bonds).investors@ == old(treasury_bonds).investors@.push(
            old(investor).owner,
        ),
        old(treasury_bonds).same_terms(*final(treasury_bonds)),
        old(investor).same_identity(*final(investor)),
        old(treasury_bonds).well_formed() ==> final(treasury_bonds).well_formed(),
{
    if !treasury_bonds.is_initialized {
        return Err(TreasuryBondsError::AccountNotInitialized);
    }
    if !investor.active {
        return Err(TreasuryBondsError::InvalidInvestorStatus);
    }

    let amount = params.amount;
    if amount == 0 {
        return Err(TreasuryBondsError::InvalidAmount);
    }
    if amount < treasury_bonds.minimum_bid_amount {
        return Err(TreasuryBondsError::InvalidMinimumBidAmount);
    }

    // the unit holdings bought: unit cost times amount
    let unit_treasury_bonds = match treasury_bonds.unit_cost_of_treasury_bonds.checked_mul(
        amount,
    ) {
        Some(v) => v,
        None => {
            return Err(TreasuryBondsError::InvalidArithmeticOperation);
        },
    };

    // recompute both ledgers with checked arithmetic; commit nothing yet
    let new_total_units = match investor.total_units_treasury_bonds.checked_add(
        unit_treasury_bonds,
    ) {
        Some(v) => v,
        None => {
            return Err(TreasuryBondsError::InvalidArithmeticOperation);
        },
    };

    let new_available_funds = match investor.available_funds.checked_add(amount) {
        Some(v) => v,
        None => {
            return Err(TreasuryBondsError::InvalidArithmeticOperation);
        },
    };

    let new_total_amounts_accepted = match treasury_bonds.total_amounts_accepted.checked_add(
        amount,
    ) {
        Some(v) => v,
        None => {
            return Err(TreasuryBondsError::InvalidArithmeticOperation);
        },
    };

    // the roster is bounded; appending to a full one is refused
    if treasury_bonds.investors.len() >= MAX_INVESTORS {
        return Err(TreasuryBondsError::CapacityExceeded);
    }

    let base_units = match scale_to_base_units(amount, treasury_bonds.decimals) {
        Ok(v) => v,
        Err(e) => {
            return Err(e);
        },
    };

    // every step succeeded: commit the mutations atomically
    investor.total_units_treasury_bonds = new_total_units;
    investor.available_funds = new_available_funds;
    treasury_bonds.total_amounts_accepted = new_total_amounts_accepted;
    treasury_bonds.investors.push(investor.owner);

    Ok(base_units)
}

} // verus!
