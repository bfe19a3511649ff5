//! Decimal scaling and the token helpers built on it.

use treasury_bonds::create_token;
use treasury_bonds::scale_to_base_units;
use treasury_bonds::transfer_token;
use treasury_bonds::BondIssuer;
use treasury_bonds::CreateTokenParams;
use treasury_bonds::TransferTokenParams;
use treasury_bonds::TreasuryBonds;
use treasury_bonds::TreasuryBondsError;

fn bond(decimals: u8) -> TreasuryBonds {
    TreasuryBonds {
        owner: 1,
        issuer: BondIssuer { issuer: "Republic of Kenya".to_string() },
        country: "KE".to_string(),
        issue_no: "IFB1/2026/010".to_string(),
        type_of_bond: 1,
        tenor: 10,
        coupon_rate: 12,
        total_amounts_offered: 1_000_000,
        total_amounts_accepted: 0,
        minimum_bid_amount: 1,
        is_initialized: true,
        is_matured: false,
        investors: Vec::new(),
        unit_cost_of_treasury_bonds: 100,
        decimals,
        value_date: "2026-01-12".to_string(),
        redemption_date: "2036-01-05".to_string(),
    }
}

#[test]
fn scaling_matches_powers_of_ten() {
    assert_eq!(scale_to_base_units(5, 2), Ok(500));
    assert_eq!(scale_to_base_units(3, 9), Ok(3_000_000_000));
    assert_eq!(scale_to_base_units(1, 1), Ok(10));
    assert_eq!(scale_to_base_units(0, 4), Ok(0));
    assert_eq!(scale_to_base_units(u32::MAX, 9), Ok(u32::MAX as u64 * 1_000_000_000));
}

#[test]
fn scaling_overflow_boundary_sits_at_ten_decimals() {
    // 10^9 still fits a u32; 10^10 does not
    assert!(scale_to_base_units(1, 9).is_ok());
    assert_eq!(scale_to_base_units(1, 10), Err(TreasuryBondsError::InvalidArithmeticOperation));
    assert_eq!(scale_to_base_units(1, 255), Err(TreasuryBondsError::InvalidArithmeticOperation));
}

#[test]
fn scaling_round_trips_through_division() {
    for (amount, decimals) in [(5u32, 2u8), (1, 1), (123_456, 4), (u32::MAX, 9)] {
        let base_units = scale_to_base_units(amount, decimals).unwrap();
        let power = 10u64.pow(decimals as u32);
        assert_eq!(base_units / power, amount as u64);
    }
}

#[test]
fn create_token_scales_the_minted_amount() {
    let bond = bond(2);
    assert_eq!(create_token(&CreateTokenParams { amount: 5 }, &bond), Ok(500));
}

#[test]
fn create_token_rejects_zero_amount() {
    let bond = bond(2);
    let r = create_token(&CreateTokenParams { amount: 0 }, &bond);
    assert_eq!(r, Err(TreasuryBondsError::InvalidAmount));
}

#[test]
fn create_token_needs_initialized_bond() {
    let mut bond = bond(2);
    bond.is_initialized = false;
    let r = create_token(&CreateTokenParams { amount: 5 }, &bond);
    assert_eq!(r, Err(TreasuryBondsError::AccountNotInitialized));
}

#[test]
fn transfer_token_scales_the_moved_amount() {
    let bond = bond(9);
    assert_eq!(transfer_token(&TransferTokenParams { amount: 3 }, &bond), Ok(3_000_000_000));
}

#[test]
fn transfer_token_rejects_zero_amount() {
    let bond = bond(2);
    let r = transfer_token(&TransferTokenParams { amount: 0 }, &bond);
    assert_eq!(r, Err(TreasuryBondsError::InvalidAmount));
}

#[test]
fn transfer_token_scaling_overflow_fails() {
    let bond = bond(12);
    let r = transfer_token(&TransferTokenParams { amount: 3 }, &bond);
    assert_eq!(r, Err(TreasuryBondsError::InvalidArithmeticOperation));
}
