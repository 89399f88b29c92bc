//! Connection identities.

use vstd::prelude::*;

verus! {

/// Number of characters in every identity the broker draws.
pub const IDENTITY_LENGTH: usize = 36;

/// Draws a fresh identity for a connection.
///
/// Trusted: the body calls `uuid::Uuid::new_v4` and renders the result with
/// `to_string`. That gives a random version-4 UUID in hyphenated lower-case
/// form, which is always 36 characters long. The contract claims that length
/// and nothing else: which identity comes out is left to chance, and two
/// calls may or may not differ.
#[verifier::external_body]
pub(crate) fn fresh_identity() -> (id: String)
    ensures
        id@.len() == IDENTITY_LENGTH,
{
    uuid::Uuid::new_v4().to_string()
}

} // verus!
