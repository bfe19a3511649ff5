//! The ledger records and the field constraints they keep.

pub mod bond_issuer;
pub mod configs;
pub mod deposit_base;
pub mod investor;
pub mod treasury_bonds;

use vstd::prelude::*;

verus! {

/// An already-authenticated party: the authorization substrate outside this
/// crate verifies that a caller controls an identity before any operation
/// here runs, so the ledger core only stores and compares identities.
pub type Identity = u64;

/// The length in bytes of the UTF-8 encoding of a string value; every
/// length constraint on a text field is stated over this.
pub open spec fn byte_len(s: Seq<char>) -> nat {
    vstd::utf8::encode_utf8(s).len()
}

/// Length in bytes of a string's UTF-8 encoding.
pub fn string_byte_len(s: &String) -> (n: usize)
    ensures
        n == byte_len(s@),
{
    s.as_str().as_bytes().len()
}

/// A country code must be exactly 2 or 3 bytes long.
pub open spec fn country_len_valid(s: Seq<char>) -> bool {
    byte_len(s) == 2 || byte_len(s) == 3
}

} // verus!
