//! Administrative bootstrap of the issuer registry.

use vstd::prelude::*;

use crate::error::TreasuryBondsError;
use crate::state::configs::TreasuryBondsConfigs;

verus! {

/// Bootstraps the issuer registry: marks it initialized so that bond
/// registration may run.  Fails, changing nothing, where the registry was
/// bootstrapped already.
pub fn init(treasury_bonds_configs: &mut TreasuryBondsConfigs) -> (r: Result<
    (),
    TreasuryBondsError,
>)
    ensures
        r is Ok <==> !old(treasury_bonds_configs).is_initialized,
        r is Err ==> r->Err_0 == TreasuryBondsError::AccountAlreadyInitialized
            && *final(treasury_bonds_configs) == *old(treasury_bonds_configs),
        r is Ok ==> final(treasury_bonds_configs).is_initialized
            && final(treasury_bonds_configs).issuers == old(treasury_bonds_configs).issuers,
{
    if treasury_bonds_configs.is_initialized {
        return Err(TreasuryBondsError::AccountAlreadyInitialized);
    }
    treasury_bonds_configs.is_initialized = true;
    Ok(())
}

} // verus!
