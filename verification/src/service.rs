//! The authentication service: registration, login, logout and the session
//! gate, orchestrating the user directory, the credential hasher and the
//! session store. All state it touches is injected at construction; there
//! are no ambient globals.

use vstd::prelude::*;
use crate::AuthError;
use crate::auth_schema::{Sessions, SessionView, UserSchema, UserView};
use crate::directory::{UserDirectory, contains_email, contains_user_id, user_with_email};
use crate::hashing::{bcrypt_accepts, check_credential, hash_password};
use crate::route_schema::{LoginPayload, SignupPayload};
use crate::session_store::{
    SESSION_TTL_MS, SessionStore, contains_session, contains_token, session_with_token,
    token_live,
};

verus! {

/// Mathematical model of the whole service state.
#[verifier::ext_equal]
pub ghost struct ServiceView {
    pub users: Seq<UserView>,
    pub sessions: Seq<SessionView>,
}

/// The authentication service, owning its user directory and session store.
pub struct AuthService {
    directory: UserDirectory,
    sessions: SessionStore,
}

impl View for AuthService {
    type V = ServiceView;

    closed spec fn view(&self) -> ServiceView {
        ServiceView { users: self.directory@, sessions: self.sessions@ }
    }
}

impl AuthService {
    /// The service is well formed when both stores are and every session
    /// references a registered account.
    pub closed spec fn wf(self) -> bool {
        &&& self.directory.wf()
        &&& self.sessions.wf()
        &&& forall|i: int|
            0 <= i < self@.sessions.len() ==> contains_user_id(
                self@.users,
                self@.sessions[i].user_id,
            )
    }

    /// A service with no accounts and no sessions.
    pub fn new() -> (r: Self)
        ensures
            r.wf(),
            r@.users == Seq::<UserView>::empty(),
            r@.sessions == Seq::<SessionView>::empty(),
    {
        AuthService { directory: UserDirectory::new(), sessions: SessionStore::new() }
    }

    /// Registration. Looks the email up; a hit fails with `EmailInUse` and
    /// changes nothing. Otherwise the password is hashed, the account is
    /// persisted, and a session for it is minted at once — registration
    /// logs the new account in. Identifier exhaustion is reported as
    /// unavailable storage, before anything is written.
    pub fn signup(&mut self, payload: SignupPayload, now: u64) -> (r: Result<
        (UserSchema, Sessions),
        AuthError,
    >)
        requires
            old(self).wf(),
            now + SESSION_TTL_MS <= u64::MAX,
        ensures
            final(self).wf(),
            (r is Err && r->Err_0 == AuthError::EmailInUse) <==> contains_email(
                old(self)@.users,
                payload.email@,
            ),
            r is Err ==> final(self)@ == old(self)@ && (r->Err_0 == AuthError::EmailInUse
                || r->Err_0 == AuthError::StorageUnavailable),
            r is Ok ==> {
                let user = r->Ok_0.0@;
                let session = r->Ok_0.1@;
                &&& user.email == payload.email@
                &&& user.user_name == payload.user_name@
                &&& bcrypt_accepts(payload.password@, user.password)
                &&& !contains_user_id(old(self)@.users, user.id)
                &&& final(self)@.users == old(self)@.users.push(user)
                &&& session.user_id == user.id
                &&& session.valid_till == now + SESSION_TTL_MS
                &&& !contains_token(old(self)@.sessions, session.session_id)
                &&& final(self)@.sessions == old(self)@.sessions.push(session)
            },
    {
        if self.directory.find_by_email(&payload.email).is_some() {
            return Err(AuthError::EmailInUse);
        }
        let id = match self.directory.mint_id() {
            Some(id) => id,
            None => { return Err(AuthError::StorageUnavailable) },
        };
        let token = match self.sessions.mint_token() {
            Some(token) => token,
            None => { return Err(AuthError::StorageUnavailable) },
        };
        let digest = hash_password(payload.password.as_str());
        let user = match self.directory.create(id, payload.email, payload.user_name, digest) {
            Ok(user) => user,
            Err(_) => vstd::pervasive::unreached(),
        };
        let session = match self.sessions.create_with_token(token, user.id.clone(), now) {
            Ok(session) => session,
            Err(_) => vstd::pervasive::unreached(),
        };
        proof {
            assert forall|i: int| 0 <= i < self@.sessions.len() implies contains_user_id(
                self@.users,
                self@.sessions[i].user_id,
            ) by {
                if i < old(self)@.sessions.len() {
                    assert(contains_user_id(old(self)@.users, old(self)@.sessions[i].user_id));
                    let k = choose|k: int|
                        0 <= k < old(self)@.users.len() && old(self)@.users[k].id == old(
                            self,
                        )@.sessions[i].user_id;
                    assert(self@.users[k].id == self@.sessions[i].user_id);
                } else {
                    assert(self@.sessions[i] == session@);
                    assert(self@.users[old(self)@.users.len() as int].id == user@.id);
                }
            }
        }
        Ok((user, session))
    }

    /// Login. An unknown email and a wrong password both fail with
    /// `InvalidCredentials`, indistinguishably, and change nothing. A match
    /// mints exactly one new session for the account, expiring a fixed TTL
    /// after `now`; token exhaustion is reported as unavailable storage.
    pub fn login(&mut self, payload: &LoginPayload, now: u64) -> (r: Result<Sessions, AuthError>)
        requires
            old(self).wf(),
            now + SESSION_TTL_MS <= u64::MAX,
        ensures
            final(self).wf(),
            r is Err ==> final(self)@ == old(self)@,
            (r is Err && r->Err_0 == AuthError::InvalidCredentials) <==> (!contains_email(
                old(self)@.users,
                payload.email@,
            ) || !bcrypt_accepts(
                payload.password@,
                user_with_email(old(self)@.users, payload.email@).password,
            )),
            r is Err ==> (r->Err_0 == AuthError::InvalidCredentials || r->Err_0
                == AuthError::StorageUnavailable),
            r is Ok ==> {
                let session = r->Ok_0@;
                &&& contains_email(old(self)@.users, payload.email@)
                &&& bcrypt_accepts(
                    payload.password@,
                    user_with_email(old(self)@.users, payload.email@).password,
                )
                &&& session.user_id == user_with_email(old(self)@.users, payload.email@).id
                &&& session.valid_till == now + SESSION_TTL_MS
                &&& !contains_token(old(self)@.sessions, session.session_id)
                &&& final(self)@.users == old(self)@.users
                &&& final(self)@.sessions == old(self)@.sessions.push(session)
            },
    {
        let user_id = match self.directory.find_by_email(&payload.email) {
            Some(user) => {
                if check_credential(payload.password.as_str(), &user.password) {
                    user.id.clone()
                } else {
                    return Err(AuthError::InvalidCredentials);
                }
            },
            None => { return Err(AuthError::InvalidCredentials) },
        };
        match self.sessions.create(user_id, now) {
            Ok(session) => {
                proof {
                    assert forall|i: int| 0 <= i < self@.sessions.len() implies contains_user_id(
                        self@.users,
                        self@.sessions[i].user_id,
                    ) by {
                        if i < old(self)@.sessions.len() {
                            assert(contains_user_id(
                                old(self)@.users,
                                old(self)@.sessions[i].user_id,
                            ));
                        } else {
                            assert(self@.sessions[i] == session@);
                            assert(contains_email(self@.users, payload.email@));
                            assert(contains_user_id(
                                self@.users,
                                user_with_email(self@.users, payload.email@).id,
                            ));
                        }
                    }
                }
                Ok(session)
            },
            Err(e) => Err(e),
        }
    }

    /// Logout. Fails with `MissingToken` only when no token was supplied;
    /// otherwise the session carrying the token is deleted — idempotently,
    /// so an unknown token still succeeds. Accounts are untouched.
    pub fn logout(&mut self, token: Option<&String>) -> (r: Result<(), AuthError>)
        requires
            old(self).wf(),
        ensures
            final(self).wf(),
            (r is Err && r->Err_0 == AuthError::MissingToken) <==> token is None,
            r is Err ==> final(self)@ == old(self)@ && r->Err_0 == AuthError::MissingToken,
            r is Ok ==> {
                &&& final(self)@.users == old(self)@.users
                &&& !contains_token(final(self)@.sessions, token->0@)
                &&& forall|t: Seq<char>|
                    t != token->0@ ==> contains_token(final(self)@.sessions, t) == contains_token(
                        old(self)@.sessions,
                        t,
                    )
                &&& forall|t: Seq<char>|
                    t != token->0@ && contains_token(old(self)@.sessions, t)
                        ==> session_with_token(final(self)@.sessions, t) == session_with_token(
                        old(self)@.sessions,
                        t,
                    )
                &&& final(self)@.sessions.len() == old(self)@.sessions.len() - (
                if contains_token(old(self)@.sessions, token->0@) {
                    1int
                } else {
                    0int
                })
            },
    {
        match token {
            None => Err(AuthError::MissingToken),
            Some(token) => {
                self.sessions.delete_by_token(token);
                proof {
                    assert forall|i: int| 0 <= i < self@.sessions.len() implies contains_user_id(
                        self@.users,
                        self@.sessions[i].user_id,
                    ) by {
                        assert(contains_session(old(self)@.sessions, self@.sessions[i]));
                        let k = choose|k: int|
                            0 <= k < old(self)@.sessions.len() && old(self)@.sessions[k]
                                == self@.sessions[i];
                        assert(contains_user_id(
                            old(self)@.users,
                            old(self)@.sessions[k].user_id,
                        ));
                    }
                }
                Ok(())
            },
        }
    }

    /// The session gate. Admits a request exactly when a token was supplied
    /// and resolves to a session whose expiry lies strictly in the future,
    /// handing back the owning account's id; everything else is turned away
    /// with `Unauthenticated`. This check only reads and mutates nothing.
    pub fn gate(&self, token: Option<&String>, now: u64) -> (r: Result<String, AuthError>)
        requires
            self.wf(),
        ensures
            r is Ok <==> (token is Some && token_live(self@.sessions, token->0@, now)),
            r is Ok ==> r->Ok_0@ == session_with_token(self@.sessions, token->0@).user_id,
            r is Err ==> r->Err_0 == AuthError::Unauthenticated,
    {
        match token {
            None => Err(AuthError::Unauthenticated),
            Some(token) => match self.sessions.find_by_token(token, now) {
                Some(session) => Ok(session.user_id.clone()),
                None => Err(AuthError::Unauthenticated),
            },
        }
    }
}

} // verus!
