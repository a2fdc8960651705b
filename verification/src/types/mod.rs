//! Messages, stored records and responses of the three contracts, and the
//! limits they share.

pub mod credential_registry;
pub mod issuer_registry;
pub mod credential_verifier;
pub mod xion;

use vstd::prelude::*;

verus! {

/// Maximum length, in bytes, of string identifiers (schema IDs).
pub const MAX_ID_LENGTH: usize = 128;

/// Maximum length, in bytes, of description fields.
pub const MAX_DESCRIPTION_LENGTH: usize = 1024;

/// Page size used when a query names none.
pub const DEFAULT_LIMIT: u32 = 10;

/// Largest page a query may ask for; larger requests are cut down to it.
pub const MAX_LIMIT: u32 = 50;

} // verus!
