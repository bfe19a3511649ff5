//! The ledger operations.

// administrative operations
pub mod init;
pub mod register_treasury_bonds;

// investor-facing operations
pub mod buy_treasury_bonds;
pub mod create_token;
pub mod register_investor;
pub mod redeem_treasury_bonds;
pub mod sell_treasury_bonds;
pub mod transfer_token;
