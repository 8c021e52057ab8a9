//! The session store: active sessions keyed by their opaque token, with
//! read-time expiry — an expired session is treated as absent whether or not
//! it is still physically present.

use vstd::prelude::*;
use crate::AuthError;
use crate::auth_schema::{Sessions, SessionView};
use crate::token::uuid_v4_string;

verus! {

/// Sessions live for seven days from issuance; the lifetime is not
/// configurable per call.
pub const SESSION_TTL_MS: u64 = 7 * 24 * 60 * 60 * 1000;

/// How many fresh random tokens are drawn before minting gives up.
pub const MINT_ATTEMPTS: usize = 8;

/// Some stored session carries this token.
pub open spec fn contains_token(sessions: Seq<SessionView>, token: Seq<char>) -> bool {
    exists|i: int| 0 <= i < sessions.len() && sessions[i].session_id == token
}

/// The stored session carrying this token (meaningful when tokens are unique).
pub open spec fn session_with_token(sessions: Seq<SessionView>, token: Seq<char>) -> SessionView {
    sessions[choose|i: int| 0 <= i < sessions.len() && sessions[i].session_id == token]
}

/// No two stored sessions share a token.
pub open spec fn tokens_unique(sessions: Seq<SessionView>) -> bool {
    forall|i: int, j: int|
        0 <= i < j < sessions.len() ==> sessions[i].session_id != sessions[j].session_id
}

/// Some stored session is this very record.
pub open spec fn contains_session(sessions: Seq<SessionView>, session: SessionView) -> bool {
    exists|i: int| 0 <= i < sessions.len() && sessions[i] == session
}

/// The token resolves now: it is stored and its expiry lies strictly in the
/// future.
pub open spec fn token_live(sessions: Seq<SessionView>, token: Seq<char>, now: u64) -> bool {
    contains_token(sessions, token) && now < session_with_token(sessions, token).valid_till
}

/// The store of active sessions.
pub struct SessionStore {
    sessions: Vec<Sessions>,
}

impl View for SessionStore {
    type V = Seq<SessionView>;

    closed spec fn view(&self) -> Seq<SessionView> {
        self.sessions@.map_values(|s: Sessions| s@)
    }
}

impl SessionStore {
    /// The store is well formed when no two sessions share a token.
    pub open spec fn wf(self) -> bool {
        tokens_unique(self@)
    }

    /// An empty store.
    pub fn new() -> (r: Self)
        ensures
            r.wf(),
            r@ == Seq::<SessionView>::empty(),
    {
        let store = SessionStore { sessions: Vec::new() };
        proof {
            assert(store@ =~= Seq::<SessionView>::empty());
        }
        store
    }

    /// Whether a session with this token is stored, expired or not.
    pub fn contains(&self, token: &String) -> (r: bool)
        ensures
            r == contains_token(self@, token@),
    {
        let mut i: usize = 0;
        while i < self.sessions.len()
            invariant
                0 <= i <= self.sessions@.len(),
                self@.len() == self.sessions@.len(),
                forall|j: int| 0 <= j < i ==> self@[j].session_id != token@,
            decreases self.sessions@.len() - i,
        {
            if self.sessions[i].session_id == *token {
                proof {
                    assert(self@[i as int].session_id == token@);
                }
                return true;
            }
            i += 1;
        }
        false
    }

    /// Draws a random token that is not yet stored, or gives up after a fixed
    /// number of attempts. Reads only; the store is unchanged.
    pub fn mint_token(&self) -> (r: Option<String>)
        ensures
            r is Some ==> !contains_token(self@, r->0@),
    {
        let mut attempt: usize = 0;
        while attempt < MINT_ATTEMPTS
            decreases MINT_ATTEMPTS - attempt,
        {
            let candidate = uuid_v4_string();
            if !self.contains(&candidate) {
                return Some(candidate);
            }
            attempt += 1;
        }
        None
    }

    /// Stores a session under a caller-supplied token. Succeeds exactly when
    /// the token is not yet in use; the expiry is `now` plus the fixed TTL.
    pub fn create_with_token(&mut self, token: String, user_id: String, now: u64) -> (r: Result<
        Sessions,
        AuthError,
    >)
        requires
            old(self).wf(),
            now + SESSION_TTL_MS <= u64::MAX,
        ensures
            final(self).wf(),
            r is Ok <==> !contains_token(old(self)@, token@),
            r is Err ==> final(self)@ == old(self)@ && r->Err_0 == AuthError::StorageUnavailable,
            r is Ok ==> final(self)@ == old(self)@.push(r->Ok_0@),
            r is Ok ==> r->Ok_0@ == (SessionView {
                session_id: token@,
                user_id: user_id@,
                valid_till: (now + SESSION_TTL_MS) as u64,
            }),
    {
        if self.contains(&token) {
            return Err(AuthError::StorageUnavailable);
        }
        let session = Sessions { session_id: token, user_id, valid_till: now + SESSION_TTL_MS };
        let result = session.clone();
        let ghost prior = self@;
        self.sessions.push(session);
        proof {
            assert(self@ =~= prior.push(result@));
            assert forall|i: int, j: int| 0 <= i < j < self@.len() implies self@[i].session_id
                != self@[j].session_id by {
                if j < prior.len() {
                    assert(prior[i].session_id != prior[j].session_id);
                } else {
                    assert(self@[j] == result@);
                    assert(!contains_token(prior, result@.session_id));
                    assert(prior[i].session_id != result@.session_id);
                }
            }
        }
        Ok(result)
    }

    /// Mints a fresh unique token and stores a session for this account,
    /// expiring at `now` plus the fixed TTL. Fails, leaving the store
    /// unchanged, only when no fresh token could be drawn.
    pub fn create(&mut self, user_id: String, now: u64) -> (r: Result<Sessions, AuthError>)
        requires
            old(self).wf(),
            now + SESSION_TTL_MS <= u64::MAX,
        ensures
            final(self).wf(),
            r is Err ==> final(self)@ == old(self)@ && r->Err_0 == AuthError::StorageUnavailable,
            r is Ok ==> !contains_token(old(self)@, r->Ok_0@.session_id),
            r is Ok ==> final(self)@ == old(self)@.push(r->Ok_0@),
            r is Ok ==> r->Ok_0@.user_id == user_id@ && r->Ok_0@.valid_till == now
                + SESSION_TTL_MS,
    {
        match self.mint_token() {
            Some(token) => self.create_with_token(token, user_id, now),
            None => Err(AuthError::StorageUnavailable),
        }
    }

    /// Resolves a token, treating an expired session as absent: the result is
    /// the stored session exactly when its expiry lies strictly after `now`.
    pub fn find_by_token(&self, token: &String, now: u64) -> (r: Option<&Sessions>)
        requires
            self.wf(),
        ensures
            r is Some <==> token_live(self@, token@, now),
            r is Some ==> r->0@ == session_with_token(self@, token@),
    {
        let mut i: usize = 0;
        while i < self.sessions.len()
            invariant
                0 <= i <= self.sessions@.len(),
                self@.len() == self.sessions@.len(),
                self.wf(),
                forall|j: int| 0 <= j < i ==> self@[j].session_id != token@,
            decreases self.sessions@.len() - i,
        {
            if self.sessions[i].session_id == *token {
                proof {
                    let k = choose|k: int|
                        0 <= k < self@.len() && self@[k].session_id == token@;
                    assert(session_with_token(self@, token@) == self@[i as int]);
                }
                if now < self.sessions[i].valid_till {
                    return Some(&self.sessions[i]);
                } else {
                    return None;
                }
            }
            i += 1;
        }
        None
    }

    /// Deletes the session carrying this token, if any; deleting an unknown
    /// token is not an error. Every other session is kept unchanged.
    pub fn delete_by_token(&mut self, token: &String)
        requires
            old(self).wf(),
        ensures
            final(self).wf(),
            !contains_token(final(self)@, token@),
            forall|t: Seq<char>|
                t != token@ ==> contains_token(final(self)@, t) == contains_token(old(self)@, t),
            forall|t: Seq<char>|
                t != token@ && contains_token(old(self)@, t) ==> session_with_token(
                    final(self)@,
                    t,
                ) == session_with_token(old(self)@, t),
            forall|j: int|
                0 <= j < final(self)@.len() ==> contains_session(old(self)@, final(self)@[j]),
            final(self)@.len() == old(self)@.len() - (if contains_token(old(self)@, token@) {
                1int
            } else {
                0int
            }),
    {
        let ghost prior = self@;
        let mut i: usize = 0;
        while i < self.sessions.len()
            invariant
                0 <= i <= self.sessions@.len(),
                self@.len() == self.sessions@.len(),
                self@ == prior,
                old(self)@ == prior,
                self.wf(),
                forall|j: int| 0 <= j < i ==> self@[j].session_id != token@,
            decreases self.sessions@.len() - i,
        {
            if self.sessions[i].session_id == *token {
                proof {
                    assert(prior[i as int].session_id == token@);
                }
                self.sessions.remove(i);
                proof {
                    assert(self@ =~= prior.remove(i as int));
                    Self::lemma_remove_properties(prior, i as int, token@);
                    assert(self@ == prior.remove(i as int));
                    assert forall|t: Seq<char>| t != token@ implies contains_token(self@, t)
                        == contains_token(prior, t) by {
                        assert(contains_token(prior.remove(i as int), t) == contains_token(
                            prior,
                            t,
                        ));
                    }
                    assert forall|t: Seq<char>|
                        t != token@ && contains_token(prior, t) implies session_with_token(
                        self@,
                        t,
                    ) == session_with_token(prior, t) by {
                        assert(session_with_token(prior.remove(i as int), t)
                            == session_with_token(prior, t));
                    }
                }
                return ;
            }
            i += 1;
        }
        proof {
            assert(!contains_token(self@, token@));
        }
    }

    /// After removing the one session at `i` that carries `token` from a
    /// store with unique tokens, the token is gone and all other sessions
    /// are preserved.
    proof fn lemma_remove_properties(sessions: Seq<SessionView>, i: int, token: Seq<char>)
        requires
            tokens_unique(sessions),
            0 <= i < sessions.len(),
            sessions[i].session_id == token,
        ensures
            tokens_unique(sessions.remove(i)),
            !contains_token(sessions.remove(i), token),
            forall|t: Seq<char>|
                t != token ==> contains_token(sessions.remove(i), t) == contains_token(sessions, t),
            forall|t: Seq<char>|
                t != token && contains_token(sessions, t) ==> session_with_token(
                    sessions.remove(i),
                    t,
                ) == session_with_token(sessions, t),
            forall|j: int|
                0 <= j < sessions.remove(i).len() ==> contains_session(
                    sessions,
                    sessions.remove(i)[j],
                ),
            sessions.remove(i).len() == sessions.len() - 1,
            contains_token(sessions, token),
    {
        let removed = sessions.remove(i);
        assert forall|j: int| 0 <= j < removed.len() implies contains_session(
            sessions,
            removed[j],
        ) by {
            if j < i {
                assert(sessions[j] == removed[j]);
            } else {
                assert(sessions[j + 1] == removed[j]);
            }
        }
        assert forall|j: int| 0 <= j < removed.len() implies removed[j].session_id != token by {
            if j < i {
                assert(removed[j] == sessions[j]);
            } else {
                assert(removed[j] == sessions[j + 1]);
            }
        }
        assert forall|t: Seq<char>| t != token implies contains_token(removed, t)
            == contains_token(sessions, t) by {
            if contains_token(sessions, t) {
                let k = choose|k: int| 0 <= k < sessions.len() && sessions[k].session_id == t;
                if k < i {
                    assert(removed[k] == sessions[k]);
                } else {
                    assert(k != i);
                    assert(removed[k - 1] == sessions[k]);
                }
                assert(contains_token(removed, t));
            }
            if contains_token(removed, t) {
                let k = choose|k: int| 0 <= k < removed.len() && removed[k].session_id == t;
                if k < i {
                    assert(sessions[k] == removed[k]);
                } else {
                    assert(sessions[k + 1] == removed[k]);
                }
                assert(contains_token(sessions, t));
            }
        }
        assert forall|t: Seq<char>|
            t != token && contains_token(sessions, t) implies session_with_token(removed, t)
            == session_with_token(sessions, t) by {
            let k = choose|k: int| 0 <= k < sessions.len() && sessions[k].session_id == t;
            let m = choose|m: int| 0 <= m < removed.len() && removed[m].session_id == t;
            let back = if m < i {
                m
            } else {
                m + 1
            };
            assert(sessions[back] == removed[m]);
            assert(back == k);
        }
    }
}

} // verus!
