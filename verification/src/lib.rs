//! Credential-based authentication service: user registration, credential
//! verification, opaque session tokens, and a request gate that admits or
//! rejects requests by session validity.

use vstd::prelude::*;

pub mod auth_schema;
pub mod clock;
pub mod directory;
pub mod hashing;
pub mod laws;
pub mod route_schema;
pub mod service;
pub mod session_store;
mod token;

verus! {

/// The error taxonomy of the service.
///
/// `EmailInUse`, `InvalidCredentials`, `MissingToken` and `Unauthenticated`
/// are client-facing validation failures; `HashingError` and
/// `StorageUnavailable` are operational failures surfaced immediately.
#[derive(Debug, Clone, Copy, PartialEq, Eq, Structural)]
pub enum AuthError {
    EmailInUse,
    InvalidCredentials,
    MissingToken,
    Unauthenticated,
    HashingError,
    StorageUnavailable,
}

} // verus!
