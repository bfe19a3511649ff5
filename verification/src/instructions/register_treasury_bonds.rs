//! Registration of one bond issuance.

use vstd::prelude::*;

use crate::error::TreasuryBondsError;
use crate::state::bond_issuer::BondIssuer;
use crate::state::bond_issuer::ISSUER_LENGTH;
use crate::state::byte_len;
use crate::state::configs::TreasuryBondsConfigs;
use crate::state::configs::MAX_ISSUERS;
use crate::state::country_len_valid;
use crate::state::deposit_base::DepositBase;
use crate::state::string_byte_len;
use crate::state::treasury_bonds::TreasuryBonds;
use crate::state::treasury_bonds::DATE_LENGTH;
use crate::state::treasury_bonds::ISSUER_NO_LENGTH;
use crate::state::treasury_bonds::TENOR_MAX;
use crate::state::treasury_bonds::TENOR_MIN;
use crate::state::Identity;

verus! {

/// The terms of a bond issuance to be registered.
pub struct RegisterTreasuryBondsParams {
    /// The issuing party, with a name of 1 to 30 bytes.
    pub issuer: BondIssuer,
    /// Country where the bond is auctioned, 2 or 3 bytes.
    pub country: String,
    /// Issue number of the bond, 1 to 20 bytes.
    pub issue_no: String,
    /// 1 for fixed-coupon, 2 for infrastructure.
    pub type_of_bond: u8,
    /// Maturity period in years, 2 to 30.
    pub tenor: u8,
    /// Coupon rate in percent, positive.
    pub coupon_rate: u8,
    /// Total amounts offered, positive.
    pub total_amounts_offered: u32,
    /// Smallest amount a subscription may bid, positive.
    pub minimum_bid_amount: u32,
    /// Unit cost of the bond, positive.
    pub unit_cost_of_treasury_bonds: u32,
    /// Decimals of the value-bearing unit, positive.
    pub decimals: u8,
    /// Value date of the bond, 1 to 20 bytes.
    pub value_date: String,
    /// Redemption date of the bond, 1 to 20 bytes.
    pub redemption_date: String,
}

/// The first violation, in validation order, among the term constraints; or
/// `None` where every term is admissible.
pub open spec fn register_treasury_bonds_error(params: RegisterTreasuryBondsParams) -> Option<
    TreasuryBondsError,
> {
    if !(0 < byte_len(params.issuer.issuer@) <= ISSUER_LENGTH) {
        Some(TreasuryBondsError::InvalidIssuerLength)
    } else if !country_len_valid(params.country@) {
        Some(TreasuryBondsError::InvalidCountryLength)
    } else if !(0 < byte_len(params.issue_no@) <= ISSUER_NO_LENGTH) {
        Some(TreasuryBondsError::InvalidIssuerNoLength)
    } else if params.type_of_bond != 1 && params.type_of_bond != 2 {
        Some(TreasuryBondsError::InvalidTypeOfBond)
    } else if !(TENOR_MIN <= params.tenor <= TENOR_MAX) {
        Some(TreasuryBondsError::InvalidBondTenor)
    } else if params.coupon_rate == 0 {
        Some(TreasuryBondsError::InvalidBondCouponRate)
    } else if params.total_amounts_offered == 0 {
        Some(TreasuryBondsError::InvalidAmount)
    } else if params.minimum_bid_amount == 0 {
        Some(TreasuryBondsError::InvalidAmount)
    } else if params.unit_cost_of_treasury_bonds == 0 {
        Some(TreasuryBondsError::InvalidAmount)
    } else if !(0 < byte_len(params.value_date@) <= DATE_LENGTH) {
        Some(TreasuryBondsError::InvalidValueDateLength)
    } else if !(0 < byte_len(params.redemption_date@) <= DATE_LENGTH) {
        Some(TreasuryBondsError::InvalidValueRedemptionLength)
    } else if params.decimals == 0 {
        Some(TreasuryBondsError::InvalidNumeric)
    } else {
        None
    }
}

/// Validates the terms of a bond issuance, fails fast on the first
/// violation, and on success creates the bond aggregate and its escrow
/// anchor and appends the issuer to the registry.  The registry must be
/// bootstrapped and below capacity; nothing is mutated on any failure.
///
/// `owner` is the already-authenticated administrator registering the bond;
/// `pda_auth_bump` and `treasury_vault_bump` are the derivation tags the
/// external authorization substrate assigned to the escrow.
pub fn register_treasury_bonds(
    treasury_bonds_configs: &mut TreasuryBondsConfigs,
    params: &RegisterTreasuryBondsParams,
    owner: Identity,
    pda_auth_bump: u8,
    treasury_vault_bump: u8,
) -> (r: Result<(TreasuryBonds, DepositBase), TreasuryBondsError>)
    ensures
        r is Ok <==> old(treasury_bonds_configs).is_initialized
            && register_treasury_bonds_error(*params) is None
            && old(treasury_bonds_configs).issuers@.len() < MAX_ISSUERS,
        !old(treasury_bonds_configs).is_initialized ==> r->Err_0
            == TreasuryBondsError::AccountNotInitialized,
        old(treasury_bonds_configs).is_initialized && register_treasury_bonds_error(*params)
            is Some ==> r->Err_0 == register_treasury_bonds_error(*params)->0,
        old(treasury_bonds_configs).is_initialized && register_treasury_bonds_error(*params)
            is None && old(treasury_bonds_configs).issuers@.len() >= MAX_ISSUERS ==> r->Err_0
            == TreasuryBondsError::CapacityExceeded,
        r is Err ==> *final(treasury_bonds_configs) == *old(treasury_bonds_configs),
        r is Ok ==> final(treasury_bonds_configs).issuers@ == old(
            treasury_bonds_configs,
        ).issuers@.push(params.issuer),
        r is Ok ==> final(treasury_bonds_configs).is_initialized,
        r is Ok ==> (r->Ok_0.0) == (TreasuryBonds {
            owner,
            issuer: params.issuer,
            country: params.country,
            issue_no: params.issue_no,
            type_of_bond: params.type_of_bond,
            tenor: params.tenor,
            coupon_rate: params.coupon_rate,
            total_amounts_offered: params.total_amounts_offered,
            total_amounts_accepted: 0u32,
            minimum_bid_amount: params.minimum_bid_amount,
            is_initialized: true,
            is_matured: false,
            investors: r->Ok_0.0.investors,
            unit_cost_of_treasury_bonds: params.unit_cost_of_treasury_bonds,
            decimals: params.decimals,
            value_date: params.value_date,
            redemption_date: params.redemption_date,
        }) && r->Ok_0.0.investors@ == Seq::<Identity>::empty(),
        r is Ok ==> (r->Ok_0.1) == (DepositBase {
            owner,
            admin_auth_bump: pda_auth_bump,
            admin_treasury_vault_bump: Some(treasury_vault_bump),
            is_initialized: true,
        }),
        r is Ok ==> r->Ok_0.0.well_formed(),
        old(treasury_bonds_configs).well_formed() ==> final(treasury_bonds_configs).well_formed(),
{
    if !treasury_bonds_configs.is_initialized {
        return Err(TreasuryBondsError::AccountNotInitialized);
    }

    // validate the terms, failing fast on the first violation
    let issuer_len = string_byte_len(&params.issuer.issuer);
    if !(issuer_len > 0 && issuer_len <= ISSUER_LENGTH) {
        return Err(TreasuryBondsError::InvalidIssuerLength);
    }

    let country_len = string_byte_len(&params.country);
    if country_len != 3 && country_len != 2 {
        return Err(TreasuryBondsError::InvalidCountryLength);
    }

    let issue_no_len = string_byte_len(&params.issue_no);
    if !(issue_no_len > 0 && issue_no_len <= ISSUER_NO_LENGTH) {
        return Err(TreasuryBondsError::InvalidIssuerNoLength);
    }

    // 1 - fixed-coupon treasury bonds, 2 - infrastructure bonds
    if params.type_of_bond != 1 && params.type_of_bond != 2 {
        return Err(TreasuryBondsError::InvalidTypeOfBond);
    }

    // bonds mature between 2 and 30 years
    if !(params.tenor >= TENOR_MIN && params.tenor <= TENOR_MAX) {
        return Err(TreasuryBondsError::InvalidBondTenor);
    }

    if params.coupon_rate == 0 {
        return Err(TreasuryBondsError::InvalidBondCouponRate);
    }

    if params.total_amounts_offered == 0 {
        return Err(TreasuryBondsError::InvalidAmount);
    }

    if params.minimum_bid_amount == 0 {
        return Err(TreasuryBondsError::InvalidAmount);
    }

    if params.unit_cost_of_treasury_bonds == 0 {
        return Err(TreasuryBondsError::InvalidAmount);
    }

    let value_date_len = string_byte_len(&params.value_date);
    if !(value_date_len > 0 && value_date_len <= DATE_LENGTH) {
        return Err(TreasuryBondsError::InvalidValueDateLength);
    }

    let redemption_date_len = string_byte_len(&params.redemption_date);
    if !(redemption_date_len > 0 && redemption_date_len <= DATE_LENGTH) {
        return Err(TreasuryBondsError::InvalidValueRedemptionLength);
    }

    if params.decimals == 0 {
        return Err(TreasuryBondsError::InvalidNumeric);
    }

    // the registry is bounded; appending to a full one is refused
    if treasury_bonds_configs.issuers.len() >= MAX_ISSUERS {
        return Err(TreasuryBondsError::CapacityExceeded);
    }

    let deposit_account = DepositBase {
        owner,
        admin_auth_bump: pda_auth_bump,
        admin_treasury_vault_bump: Some(treasury_vault_bump),
        is_initialized: true,
    };

    let treasury_bonds = TreasuryBonds {
        owner,
        issuer: BondIssuer { issuer: params.issuer.issuer.clone() },
        country: params.country.clone(),
        issue_no: params.issue_no.clone(),
        type_of_bond: params.type_of_bond,
        tenor: params.tenor,
        coupon_rate: params.coupon_rate,
        total_amounts_offered: params.total_amounts_offered,
        total_amounts_accepted: 0,
        minimum_bid_amount: params.minimum_bid_amount,
        is_initialized: true,
        is_matured: false,
        investors: Vec::new(),
        unit_cost_of_treasury_bonds: params.unit_cost_of_treasury_bonds,
        decimals: params.decimals,
        value_date: params.value_date.clone(),
        redemption_date: params.redemption_date.clone(),
    };

    let bond_issuer = BondIssuer { issuer: params.issuer.issuer.clone() };
    treasury_bonds_configs.issuers.push(bond_issuer);

    Ok((treasury_bonds, deposit_account))
}

} // verus!
