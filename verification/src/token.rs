//! Minting of opaque random identifiers: session bearer tokens and account
//! ids both come from the same generator.

use vstd::prelude::*;

verus! {

/// Relies on uuid::Uuid::new_v4 and uuid::Uuid::to_string: a randomly
/// generated version-4 UUID rendered as its canonical hyphenated string.
/// Nothing can be promised of the value drawn.
#[verifier::external_body]
pub(crate) fn uuid_v4_string() -> (r: String) {
    uuid::Uuid::new_v4().to_string()
}

} // verus!
