//! The user directory: one record per registered identity, with email
//! uniqueness enforced at the storage boundary — a duplicate is reported,
//! never silently overwritten.

use vstd::prelude::*;
use crate::AuthError;
use crate::auth_schema::{UserSchema, UserView};
use crate::hashing::PasswordDigest;
use crate::token::uuid_v4_string;

verus! {

/// How many fresh random ids are drawn before minting gives up.
pub const ID_MINT_ATTEMPTS: usize = 8;

/// Some account carries this email.
pub open spec fn contains_email(users: Seq<UserView>, email: Seq<char>) -> bool {
    exists|i: int| 0 <= i < users.len() && users[i].email == email
}

/// The account carrying this email (meaningful when emails are unique).
pub open spec fn user_with_email(users: Seq<UserView>, email: Seq<char>) -> UserView {
    users[choose|i: int| 0 <= i < users.len() && users[i].email == email]
}

/// Some account carries this id.
pub open spec fn contains_user_id(users: Seq<UserView>, id: Seq<char>) -> bool {
    exists|i: int| 0 <= i < users.len() && users[i].id == id
}

/// No two accounts share an email.
pub open spec fn emails_unique(users: Seq<UserView>) -> bool {
    forall|i: int, j: int| 0 <= i < j < users.len() ==> users[i].email != users[j].email
}

/// No two accounts share an id.
pub open spec fn ids_unique(users: Seq<UserView>) -> bool {
    forall|i: int, j: int| 0 <= i < j < users.len() ==> users[i].id != users[j].id
}

/// The directory of registered accounts.
pub struct UserDirectory {
    users: Vec<UserSchema>,
}

impl View for UserDirectory {
    type V = Seq<UserView>;

    closed spec fn view(&self) -> Seq<UserView> {
        self.users@.map_values(|u: UserSchema| u@)
    }
}

impl UserDirectory {
    /// The directory is well formed when emails and ids are both unique.
    pub open spec fn wf(self) -> bool {
        emails_unique(self@) && ids_unique(self@)
    }

    /// An empty directory.
    pub fn new() -> (r: Self)
        ensures
            r.wf(),
            r@ == Seq::<UserView>::empty(),
    {
        let directory = UserDirectory { users: Vec::new() };
        proof {
            assert(directory@ =~= Seq::<UserView>::empty());
        }
        directory
    }

    /// Exact lookup by email; nothing is returned if the email is absent.
    pub fn find_by_email(&self, email: &String) -> (r: Option<&UserSchema>)
        requires
            self.wf(),
        ensures
            r is Some <==> contains_email(self@, email@),
            r is Some ==> r->0@ == user_with_email(self@, email@),
    {
        let mut i: usize = 0;
        while i < self.users.len()
            invariant
                0 <= i <= self.users@.len(),
                self@.len() == self.users@.len(),
                self.wf(),
                forall|j: int| 0 <= j < i ==> self@[j].email != email@,
            decreases self.users@.len() - i,
        {
            if self.users[i].email == *email {
                proof {
                    assert(self@[i as int].email == email@);
                    let k = choose|k: int| 0 <= k < self@.len() && self@[k].email == email@;
                    assert(user_with_email(self@, email@) == self@[i as int]);
                }
                return Some(&self.users[i]);
            }
            i += 1;
        }
        None
    }

    /// Whether some account carries this id.
    pub fn contains_id(&self, id: &String) -> (r: bool)
        ensures
            r == contains_user_id(self@, id@),
    {
        let mut i: usize = 0;
        while i < self.users.len()
            invariant
                0 <= i <= self.users@.len(),
                self@.len() == self.users@.len(),
                forall|j: int| 0 <= j < i ==> self@[j].id != id@,
            decreases self.users@.len() - i,
        {
            if self.users[i].id == *id {
                proof {
                    assert(self@[i as int].id == id@);
                }
                return true;
            }
            i += 1;
        }
        false
    }

    /// Draws a random id that no account carries yet, or gives up after a
    /// fixed number of attempts. Reads only; the directory is unchanged.
    pub fn mint_id(&self) -> (r: Option<String>)
        ensures
            r is Some ==> !contains_user_id(self@, r->0@),
    {
        let mut attempt: usize = 0;
        while attempt < ID_MINT_ATTEMPTS
            decreases ID_MINT_ATTEMPTS - attempt,
        {
            let candidate = uuid_v4_string();
            if !self.contains_id(&candidate) {
                return Some(candidate);
            }
            attempt += 1;
        }
        None
    }

    /// Persists a new account. Fails with `EmailInUse` exactly when the email
    /// is already registered (checked against the same state that is written,
    /// so the check and the insert act as one operation), and reports an id
    /// collision as unavailable storage; on failure nothing is written.
    pub fn create(
        &mut self,
        id: String,
        email: String,
        user_name: String,
        password: PasswordDigest,
    ) -> (r: Result<UserSchema, AuthError>)
        requires
            old(self).wf(),
        ensures
            final(self).wf(),
            r is Ok <==> !contains_email(old(self)@, email@) && !contains_user_id(
                old(self)@,
                id@,
            ),
            (r is Err && r->Err_0 == AuthError::EmailInUse) <==> contains_email(
                old(self)@,
                email@,
            ),
            r is Err ==> final(self)@ == old(self)@ && (r->Err_0 == AuthError::EmailInUse
                || r->Err_0 == AuthError::StorageUnavailable),
            r is Ok ==> r->Ok_0@ == (UserView {
                id: id@,
                email: email@,
                user_name: user_name@,
                password: password@,
            }),
            r is Ok ==> final(self)@ == old(self)@.push(r->Ok_0@),
    {
        if self.find_by_email(&email).is_some() {
            return Err(AuthError::EmailInUse);
        }
        if self.contains_id(&id) {
            return Err(AuthError::StorageUnavailable);
        }
        let user = UserSchema { id, email, user_name, password };
        let result = user.clone();
        let ghost prior = self@;
        self.users.push(user);
        proof {
            assert(self@ =~= prior.push(result@));
            assert forall|i: int, j: int| 0 <= i < j < self@.len() implies self@[i].email
                != self@[j].email && self@[i].id != self@[j].id by {
                if j < prior.len() {
                    assert(prior[i].email != prior[j].email);
                    assert(prior[i].id != prior[j].id);
                } else {
                    assert(self@[j] == result@);
                    assert(!contains_email(prior, result@.email));
                    assert(!contains_user_id(prior, result@.id));
                    assert(prior[i].email != result@.email);
                    assert(prior[i].id != result@.id);
                }
            }
        }
        Ok(result)
    }
}

} // verus!
