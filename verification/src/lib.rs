//! Verified ledger core for a tokenized fixed-income instrument ("treasury
//! bond"): issuer registration, investor registration, primary subscription
//! (buy), secondary transfer (sell) and maturity settlement (redeem).
//!
//! The crate keeps two linked ledgers consistent — the per-issuance bond
//! aggregate and the per-investor balances — using checked arithmetic and
//! fixed-point decimal scaling.  Each operation either succeeds and performs
//! exactly the mutations its contract states, or fails with a specific error
//! and leaves every record untouched.
//!
//! Custody movement, caller authorization and record durability are external
//! collaborators: an operation validates and recomputes the ledgers, then
//! hands back the scaled base-unit amount for the surrounding layer to move.

pub mod error;
pub mod instructions;
pub mod scale;
pub mod state;

pub use error::TreasuryBondsError;
pub use instructions::buy_treasury_bonds::{buy_treasury_bonds, BuyTreasuryBondsParams};
pub use instructions::create_token::{create_token, CreateTokenParams};
pub use instructions::init::init;
pub use instructions::register_investor::{register_investor, RegisterInvestorParams};
pub use instructions::register_treasury_bonds::{
    register_treasury_bonds,
    RegisterTreasuryBondsParams,
};
pub use instructions::redeem_treasury_bonds::{redeem_treasury_bonds, RedeemTreasuryBondsParams};
pub use instructions::sell_treasury_bonds::{sell_treasury_bonds, SellTreasuryBondsParams};
pub use instructions::transfer_token::{transfer_token, TransferTokenParams};
pub use scale::scale_to_base_units;
pub use state::bond_issuer::BondIssuer;
pub use state::configs::TreasuryBondsConfigs;
pub use state::deposit_base::DepositBase;
pub use state::investor::Investor;
pub use state::treasury_bonds::TreasuryBonds;
pub use state::Identity;
