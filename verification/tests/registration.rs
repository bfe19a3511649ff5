//! Bootstrap, issuer registry and record registration.

use treasury_bonds::init;
use treasury_bonds::register_investor;
use treasury_bonds::register_treasury_bonds;
use treasury_bonds::BondIssuer;
use treasury_bonds::RegisterInvestorParams;
use treasury_bonds::RegisterTreasuryBondsParams;
use treasury_bonds::TreasuryBondsConfigs;
use treasury_bonds::TreasuryBondsError;

fn fresh_configs() -> TreasuryBondsConfigs {
    TreasuryBondsConfigs { issuers: Vec::new(), is_initialized: false }
}

fn bootstrapped_configs() -> TreasuryBondsConfigs {
    TreasuryBondsConfigs { issuers: Vec::new(), is_initialized: true }
}

fn good_bond_params() -> RegisterTreasuryBondsParams {
    RegisterTreasuryBondsParams {
        issuer: BondIssuer { issuer: "Republic of Kenya".to_string() },
        country: "KE".to_string(),
        issue_no: "IFB1/2026/010".to_string(),
        type_of_bond: 2,
        tenor: 10,
        coupon_rate: 12,
        total_amounts_offered: 1_000_000,
        minimum_bid_amount: 1,
        unit_cost_of_treasury_bonds: 100,
        decimals: 2,
        value_date: "2026-01-12".to_string(),
        redemption_date: "2036-01-05".to_string(),
    }
}

#[test]
fn init_bootstraps_registry() {
    let mut configs = fresh_configs();
    assert_eq!(init(&mut configs), Ok(()));
    assert!(configs.is_initialized);
    assert_eq!(configs.issuers.len(), 0);
}

#[test]
fn init_twice_fails() {
    let mut configs = fresh_configs();
    assert_eq!(init(&mut configs), Ok(()));
    assert_eq!(init(&mut configs), Err(TreasuryBondsError::AccountAlreadyInitialized));
    assert!(configs.is_initialized);
}

#[test]
fn register_bond_succeeds_and_appends_issuer() {
    let mut configs = bootstrapped_configs();
    let params = good_bond_params();
    let (bond, deposit) = register_treasury_bonds(&mut configs, &params, 11, 254, 253)
        .expect("admissible terms must register");

    assert_eq!(bond.owner, 11);
    assert_eq!(bond.issuer.issuer, "Republic of Kenya");
    assert_eq!(bond.country, "KE");
    assert_eq!(bond.issue_no, "IFB1/2026/010");
    assert_eq!(bond.type_of_bond, 2);
    assert_eq!(bond.tenor, 10);
    assert_eq!(bond.coupon_rate, 12);
    assert_eq!(bond.total_amounts_offered, 1_000_000);
    assert_eq!(bond.total_amounts_accepted, 0);
    assert_eq!(bond.minimum_bid_amount, 1);
    assert!(bond.is_initialized);
    assert!(!bond.is_matured);
    assert!(bond.investors.is_empty());
    assert_eq!(bond.unit_cost_of_treasury_bonds, 100);
    assert_eq!(bond.decimals, 2);
    assert_eq!(bond.value_date, "2026-01-12");
    assert_eq!(bond.redemption_date, "2036-01-05");

    assert_eq!(deposit.owner, 11);
    assert_eq!(deposit.admin_auth_bump, 254);
    assert_eq!(deposit.admin_treasury_vault_bump, Some(253));
    assert!(deposit.is_initialized);

    assert_eq!(configs.issuers.len(), 1);
    assert_eq!(configs.issuers[0].issuer, "Republic of Kenya");
}

#[test]
fn register_bond_needs_bootstrapped_registry() {
    let mut configs = fresh_configs();
    let r = register_treasury_bonds(&mut configs, &good_bond_params(), 11, 254, 253);
    assert_eq!(r.err(), Some(TreasuryBondsError::AccountNotInitialized));
    assert_eq!(configs.issuers.len(), 0);
}

#[test]
fn register_bond_rejects_empty_issuer() {
    let mut configs = bootstrapped_configs();
    let mut params = good_bond_params();
    params.issuer.issuer = String::new();
    let r = register_treasury_bonds(&mut configs, &params, 11, 254, 253);
    assert_eq!(r.err(), Some(TreasuryBondsError::InvalidIssuerLength));
}

#[test]
fn register_bond_rejects_long_issuer() {
    let mut configs = bootstrapped_configs();
    let mut params = good_bond_params();
    params.issuer.issuer = "x".repeat(31);
    let r = register_treasury_bonds(&mut configs, &params, 11, 254, 253);
    assert_eq!(r.err(), Some(TreasuryBondsError::InvalidIssuerLength));
}

#[test]
fn register_bond_rejects_bad_country() {
    let mut configs = bootstrapped_configs();
    let mut params = good_bond_params();
    params.country = "KENY".to_string();
    let r = register_treasury_bonds(&mut configs, &params, 11, 254, 253);
    assert_eq!(r.err(), Some(TreasuryBondsError::InvalidCountryLength));

    params.country = "K".to_string();
    let r = register_treasury_bonds(&mut configs, &params, 11, 254, 253);
    assert_eq!(r.err(), Some(TreasuryBondsError::InvalidCountryLength));

    params.country = "KEN".to_string();
    assert!(register_treasury_bonds(&mut configs, &params, 11, 254, 253).is_ok());
}

#[test]
fn register_bond_country_length_counts_bytes() {
    // two characters of two bytes each: four bytes, hence refused
    let mut configs = bootstrapped_configs();
    let mut params = good_bond_params();
    params.country = "\u{00C0}\u{00C9}".to_string();
    assert_eq!(params.country.len(), 4);
    let r = register_treasury_bonds(&mut configs, &params, 11, 254, 253);
    assert_eq!(r.err(), Some(TreasuryBondsError::InvalidCountryLength));
}

#[test]
fn register_bond_rejects_bad_issue_no() {
    let mut configs = bootstrapped_configs();
    let mut params = good_bond_params();
    params.issue_no = String::new();
    let r = register_treasury_bonds(&mut configs, &params, 11, 254, 253);
    assert_eq!(r.err(), Some(TreasuryBondsError::InvalidIssuerNoLength));

    params.issue_no = "x".repeat(21);
    let r = register_treasury_bonds(&mut configs, &params, 11, 254, 253);
    assert_eq!(r.err(), Some(TreasuryBondsError::InvalidIssuerNoLength));
}

#[test]
fn register_bond_rejects_bad_type() {
    let mut configs = bootstrapped_configs();
    let mut params = good_bond_params();
    params.type_of_bond = 3;
    let r = register_treasury_bonds(&mut configs, &params, 11, 254, 253);
    assert_eq!(r.err(), Some(TreasuryBondsError::InvalidTypeOfBond));

    params.type_of_bond = 0;
    let r = register_treasury_bonds(&mut configs, &params, 11, 254, 253);
    assert_eq!(r.err(), Some(TreasuryBondsError::InvalidTypeOfBond));
}

#[test]
fn register_bond_rejects_bad_tenor() {
    let mut configs = bootstrapped_configs();
    let mut params = good_bond_params();
    params.tenor = 1;
    let r = register_treasury_bonds(&mut configs, &params, 11, 254, 253);
    assert_eq!(r.err(), Some(TreasuryBondsError::InvalidBondTenor));

    params.tenor = 31;
    let r = register_treasury_bonds(&mut configs, &params, 11, 254, 253);
    assert_eq!(r.err(), Some(TreasuryBondsError::InvalidBondTenor));

    params.tenor = 2;
    assert!(register_treasury_bonds(&mut configs, &params, 11, 254, 253).is_ok());
    params.tenor = 30;
    assert!(register_treasury_bonds(&mut configs, &params, 12, 254, 253).is_ok());
}

#[test]
fn register_bond_rejects_zero_numerics() {
    let mut configs = bootstrapped_configs();

    let mut params = good_bond_params();
    params.coupon_rate = 0;
    let r = register_treasury_bonds(&mut configs, &params, 11, 254, 253);
    assert_eq!(r.err(), Some(TreasuryBondsError::InvalidBondCouponRate));

    let mut params = good_bond_params();
    params.total_amounts_offered = 0;
    let r = register_treasury_bonds(&mut configs, &params, 11, 254, 253);
    assert_eq!(r.err(), Some(TreasuryBondsError::InvalidAmount));

    let mut params = good_bond_params();
    params.minimum_bid_amount = 0;
    let r = register_treasury_bonds(&mut configs, &params, 11, 254, 253);
    assert_eq!(r.err(), Some(TreasuryBondsError::InvalidAmount));

    let mut params = good_bond_params();
    params.unit_cost_of_treasury_bonds = 0;
    let r = register_treasury_bonds(&mut configs, &params, 11, 254, 253);
    assert_eq!(r.err(), Some(TreasuryBondsError::InvalidAmount));

    let mut params = good_bond_params();
    params.decimals = 0;
    let r = register_treasury_bonds(&mut configs, &params, 11, 254, 253);
    assert_eq!(r.err(), Some(TreasuryBondsError::InvalidNumeric));
}

#[test]
fn register_bond_rejects_bad_dates() {
    let mut configs = bootstrapped_configs();

    let mut params = good_bond_params();
    params.value_date = String::new();
    let r = register_treasury_bonds(&mut configs, &params, 11, 254, 253);
    assert_eq!(r.err(), Some(TreasuryBondsError::InvalidValueDateLength));

    let mut params = good_bond_params();
    params.redemption_date = "x".repeat(21);
    let r = register_treasury_bonds(&mut configs, &params, 11, 254, 253);
    assert_eq!(r.err(), Some(TreasuryBondsError::InvalidValueRedemptionLength));
}

#[test]
fn issuer_registry_is_bounded() {
    let mut configs = bootstrapped_configs();
    let params = good_bond_params();
    for owner in 0..5u64 {
        assert!(register_treasury_bonds(&mut configs, &params, owner, 254, 253).is_ok());
    }
    assert_eq!(configs.issuers.len(), 5);
    let r = register_treasury_bonds(&mut configs, &params, 5, 254, 253);
    assert_eq!(r.err(), Some(TreasuryBondsError::CapacityExceeded));
    assert_eq!(configs.issuers.len(), 5);
}

#[test]
fn register_investor_succeeds() {
    let params = RegisterInvestorParams {
        full_names: "Jane Wanjiku Doe".to_string(),
        country: "KE".to_string(),
    };
    let investor = register_investor(&params, 7).expect("admissible details must register");
    assert_eq!(investor.owner, 7);
    assert_eq!(investor.full_names, "Jane Wanjiku Doe");
    assert_eq!(investor.country, "KE");
    assert!(investor.active);
    assert_eq!(investor.total_units_treasury_bonds, 0);
    assert_eq!(investor.available_funds, 0);
}

#[test]
fn register_investor_rejects_bad_names() {
    let params = RegisterInvestorParams { full_names: String::new(), country: "KE".to_string() };
    assert_eq!(register_investor(&params, 7).err(), Some(TreasuryBondsError::InvalidFullNamesLength));

    let params = RegisterInvestorParams { full_names: "x".repeat(51), country: "KE".to_string() };
    assert_eq!(register_investor(&params, 7).err(), Some(TreasuryBondsError::InvalidFullNamesLength));

    let params = RegisterInvestorParams { full_names: "x".repeat(50), country: "KE".to_string() };
    assert!(register_investor(&params, 7).is_ok());
}

#[test]
fn register_investor_rejects_bad_country() {
    let params = RegisterInvestorParams {
        full_names: "Jane Wanjiku Doe".to_string(),
        country: "KENYA".to_string(),
    };
    assert_eq!(register_investor(&params, 7).err(), Some(TreasuryBondsError::InvalidCountryLength));
}
