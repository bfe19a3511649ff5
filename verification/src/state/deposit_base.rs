//! The escrow anchor for a bond's custody vault.

use vstd::prelude::*;

use crate::state::Identity;

verus! {

/// Escrow/authority anchor for a bond's custody vault, created once
/// alongside the bond record.  The signing authority of the vault is derived
/// deterministically from the stored tags by the external authorization
/// substrate; this crate only stores them and passes them through.
pub struct DepositBase {
    /// The administrator who registered the paired bond.
    pub owner: Identity,
    /// Derivation tag of the administrative authority.
    pub admin_auth_bump: u8,
    /// Derivation tag of the treasury vault, assigned at registration.
    pub admin_treasury_vault_bump: Option<u8>,
    /// Set once at registration; redeem requires it.
    pub is_initialized: bool,
}

} // verus!
