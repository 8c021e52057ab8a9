//! The request payloads the service consumes: login credentials and the
//! registration form.

use vstd::prelude::*;

verus! {

/// Credentials presented at login.
pub struct LoginPayload {
    pub email: String,
    pub password: String,
}

/// The registration form: display name, unique email, plaintext password.
pub struct SignupPayload {
    pub user_name: String,
    pub email: String,
    pub password: String,
}

} // verus!
