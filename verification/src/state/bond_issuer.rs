//! The party that issues a bond for purchase.

use vstd::prelude::*;

use crate::state::byte_len;

verus! {

/// Maximum length in bytes of an issuer name.
pub const ISSUER_LENGTH: usize = 30;

/// The issuer of a bond, e.g. a national treasury.  Immutable once appended
/// to the issuer registry.
pub struct BondIssuer {
    /// Name of the issuing party, 1 to 30 bytes.
    pub issuer: String,
}

impl BondIssuer {
    /// The name is non-empty and at most 30 bytes.
    pub open spec fn well_formed(self) -> bool {
        0 < byte_len(self.issuer@) <= ISSUER_LENGTH
    }
}

} // verus!
