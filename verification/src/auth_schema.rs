//! The persisted records: one registered account per identity, and one
//! record per active session, together with their mathematical models.

use vstd::prelude::*;
use crate::hashing::PasswordDigest;

verus! {

/// Mathematical model of one active session.
#[verifier::ext_equal]
pub ghost struct SessionView {
    pub session_id: Seq<char>,
    pub user_id: Seq<char>,
    pub valid_till: u64,
}

/// An active session: an opaque bearer token, the owning account, and the
/// absolute expiry instant in milliseconds since the epoch. The session is
/// invalid at or after `valid_till` whether or not it is still stored.
pub struct Sessions {
    pub session_id: String,
    pub user_id: String,
    pub valid_till: u64,
}

impl View for Sessions {
    type V = SessionView;

    open spec fn view(&self) -> SessionView {
        SessionView {
            session_id: self.session_id@,
            user_id: self.user_id@,
            valid_till: self.valid_till,
        }
    }
}

impl Clone for Sessions {
    fn clone(&self) -> (r: Self)
        ensures
            r@ == self@,
    {
        Sessions {
            session_id: self.session_id.clone(),
            user_id: self.user_id.clone(),
            valid_till: self.valid_till,
        }
    }
}

/// Mathematical model of one registered account.
#[verifier::ext_equal]
pub ghost struct UserView {
    pub id: Seq<char>,
    pub email: Seq<char>,
    pub user_name: Seq<char>,
    pub password: Seq<char>,
}

/// A registered account. `password` holds the salted digest the credential
/// hasher produced, never the plaintext; `email` is the unique login key.
pub struct UserSchema {
    pub id: String,
    pub email: String,
    pub user_name: String,
    pub password: PasswordDigest,
}

impl View for UserSchema {
    type V = UserView;

    open spec fn view(&self) -> UserView {
        UserView {
            id: self.id@,
            email: self.email@,
            user_name: self.user_name@,
            password: self.password@,
        }
    }
}

impl Clone for UserSchema {
    fn clone(&self) -> (r: Self)
        ensures
            r@ == self@,
    {
        UserSchema {
            id: self.id.clone(),
            email: self.email.clone(),
            user_name: self.user_name.clone(),
            password: self.password.clone(),
        }
    }
}

} // verus!
