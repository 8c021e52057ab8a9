//! Laws of the service, stated over the mathematical model that the
//! operations' contracts speak of, and proved once for all states.

use vstd::prelude::*;
use crate::auth_schema::{SessionView, UserView};
use crate::directory::{contains_email, emails_unique};
use crate::session_store::{contains_token, session_with_token, token_live};

verus! {

/// Law: once an account with a given email has been appended, a lookup by
/// that email finds an account — so a second registration of the same email
/// meets the duplicate check and must fail.
pub proof fn lemma_registered_email_is_found(users: Seq<UserView>, user: UserView)
    ensures
        contains_email(users.push(user), user.email),
{
    assert(users.push(user)[users.len() as int] == user);
}

/// Law: under email uniqueness, any two indices holding the same email
/// coincide — at most one account ever exists for an email.
pub proof fn lemma_email_names_at_most_one_account(users: Seq<UserView>, i: int, j: int)
    requires
        emails_unique(users),
        0 <= i < users.len(),
        0 <= j < users.len(),
        users[i].email == users[j].email,
    ensures
        i == j,
{
}

/// Law: a stored session resolves up until its expiry and not at or after
/// it — liveness of a stored token is exactly the comparison of the clock
/// against `valid_till`, whether or not the record is ever purged.
pub proof fn lemma_session_live_until_expiry(
    sessions: Seq<SessionView>,
    token: Seq<char>,
    now: u64,
)
    requires
        contains_token(sessions, token),
    ensures
        token_live(sessions, token, now) <==> now < session_with_token(
            sessions,
            token,
        ).valid_till,
{
}

/// Law: a token absent from the store is never live — once logout deletes
/// a session's token, that token is turned away at every instant.
pub proof fn lemma_absent_token_never_admitted(
    sessions: Seq<SessionView>,
    token: Seq<char>,
    now: u64,
)
    requires
        !contains_token(sessions, token),
    ensures
        !token_live(sessions, token, now),
{
}

} // verus!
