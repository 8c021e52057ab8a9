//! End-to-end behaviour of the authentication service: registration, login,
//! the session gate, logout, and session expiry.

use rustier_auth::AuthError;
use rustier_auth::route_schema::{LoginPayload, SignupPayload};
use rustier_auth::service::AuthService;
use rustier_auth::session_store::SESSION_TTL_MS;

const NOW: u64 = 1_700_000_000_000;

fn alice_signup() -> SignupPayload {
    SignupPayload {
        user_name: String::from("alice"),
        email: String::from("a@x.com"),
        password: String::from("hunter2"),
    }
}

#[test]
fn register_login_gate_logout_full_scenario() {
    let mut service = AuthService::new();

    // Register alice: succeeds and logs her in at once.
    let (user, signup_session) = match service.signup(alice_signup(), NOW) {
        Ok(pair) => pair,
        Err(_) => panic!("registration of a fresh email must succeed"),
    };
    assert_eq!(user.email, "a@x.com");
    assert_eq!(user.user_name, "alice");
    assert_ne!(user.password.as_str(), "hunter2");
    assert_eq!(signup_session.user_id, user.id);
    assert_eq!(signup_session.valid_till, NOW + SESSION_TTL_MS);

    // Login with the same credentials: a new session, distinct from the
    // registration session.
    let credentials = LoginPayload {
        email: String::from("a@x.com"),
        password: String::from("hunter2"),
    };
    let login_session = match service.login(&credentials, NOW + 5_000) {
        Ok(session) => session,
        Err(_) => panic!("login with correct credentials must succeed"),
    };
    assert_ne!(login_session.session_id, signup_session.session_id);
    assert_eq!(login_session.user_id, user.id);
    assert_eq!(login_session.valid_till, NOW + 5_000 + SESSION_TTL_MS);

    // A protected request with the login session's token is admitted.
    let admitted = service.gate(Some(&login_session.session_id), NOW + 10_000);
    assert_eq!(admitted, Ok(user.id.clone()));

    // Logout, then the same token no longer admits.
    assert_eq!(service.logout(Some(&login_session.session_id)), Ok(()));
    assert_eq!(
        service.gate(Some(&login_session.session_id), NOW + 10_000),
        Err(AuthError::Unauthenticated)
    );

    // The registration session is untouched by that logout.
    assert_eq!(service.gate(Some(&signup_session.session_id), NOW + 10_000), Ok(user.id.clone()));
}

#[test]
fn duplicate_registration_fails_and_first_account_is_unchanged() {
    let mut service = AuthService::new();
    let first = service.signup(alice_signup(), NOW);
    assert!(first.is_ok());

    // Second registration of the same email, even with another name and
    // password, fails with EmailInUse.
    let second = service.signup(
        SignupPayload {
            user_name: String::from("impostor"),
            email: String::from("a@x.com"),
            password: String::from("other-password"),
        },
        NOW + 1_000,
    );
    assert!(matches!(second, Err(AuthError::EmailInUse)));

    // Exactly one account exists for that email: the first one, with its
    // digest unchanged — the original password still logs in, the
    // impostor's does not.
    let original = LoginPayload {
        email: String::from("a@x.com"),
        password: String::from("hunter2"),
    };
    assert!(service.login(&original, NOW + 2_000).is_ok());
    let impostor = LoginPayload {
        email: String::from("a@x.com"),
        password: String::from("other-password"),
    };
    assert!(matches!(service.login(&impostor, NOW + 3_000), Err(AuthError::InvalidCredentials)));
}

#[test]
fn login_with_wrong_password_fails_and_creates_no_session() {
    let mut service = AuthService::new();
    let (_, signup_session) = service.signup(alice_signup(), NOW).ok().unwrap();

    let wrong = LoginPayload {
        email: String::from("a@x.com"),
        password: String::from("wrong-password"),
    };
    assert!(matches!(service.login(&wrong, NOW), Err(AuthError::InvalidCredentials)));

    // No session was created for the failed login: only the registration
    // session admits, and a later logout of it empties the store.
    assert!(service.gate(Some(&signup_session.session_id), NOW + 1).is_ok());
    assert_eq!(service.logout(Some(&signup_session.session_id)), Ok(()));
    assert_eq!(
        service.gate(Some(&signup_session.session_id), NOW + 1),
        Err(AuthError::Unauthenticated)
    );
}

#[test]
fn login_with_unknown_email_fails_like_wrong_password() {
    let mut service = AuthService::new();
    service.signup(alice_signup(), NOW).ok().unwrap();
    let unknown = LoginPayload {
        email: String::from("b@x.com"),
        password: String::from("hunter2"),
    };
    assert!(matches!(service.login(&unknown, NOW), Err(AuthError::InvalidCredentials)));
}

#[test]
fn session_expires_exactly_at_valid_till() {
    let mut service = AuthService::new();
    let (user, session) = service.signup(alice_signup(), NOW).ok().unwrap();
    let expiry = session.valid_till;
    assert_eq!(expiry, NOW + SESSION_TTL_MS);

    // Resolvable up until the expiry instant, unresolvable at and after it,
    // though the record was never deleted.
    assert_eq!(service.gate(Some(&session.session_id), expiry - 1), Ok(user.id.clone()));
    assert_eq!(service.gate(Some(&session.session_id), expiry), Err(AuthError::Unauthenticated));
    assert_eq!(
        service.gate(Some(&session.session_id), expiry + 1),
        Err(AuthError::Unauthenticated)
    );
}

#[test]
fn gate_rejects_missing_and_unknown_tokens() {
    let mut service = AuthService::new();
    service.signup(alice_signup(), NOW).ok().unwrap();
    assert_eq!(service.gate(None, NOW), Err(AuthError::Unauthenticated));
    let unknown = String::from("no-such-token");
    assert_eq!(service.gate(Some(&unknown), NOW), Err(AuthError::Unauthenticated));
}

#[test]
fn logout_is_idempotent_and_needs_a_token() {
    let mut service = AuthService::new();
    let (_, session) = service.signup(alice_signup(), NOW).ok().unwrap();

    // Logout with an unknown token still succeeds.
    let unknown = String::from("no-such-token");
    assert_eq!(service.logout(Some(&unknown)), Ok(()));

    // Logout twice with the same token: both succeed.
    assert_eq!(service.logout(Some(&session.session_id)), Ok(()));
    assert_eq!(service.logout(Some(&session.session_id)), Ok(()));

    // Only a missing token is an error.
    assert_eq!(service.logout(None), Err(AuthError::MissingToken));
}

#[test]
fn two_accounts_live_side_by_side() {
    let mut service = AuthService::new();
    let (alice, _) = service.signup(alice_signup(), NOW).ok().unwrap();
    let (bob, _) = service
        .signup(
            SignupPayload {
                user_name: String::from("bob"),
                email: String::from("b@x.com"),
                password: String::from("swordfish"),
            },
            NOW,
        )
        .ok()
        .unwrap();
    assert_ne!(alice.id, bob.id);

    let bob_login = LoginPayload {
        email: String::from("b@x.com"),
        password: String::from("swordfish"),
    };
    let session = service.login(&bob_login, NOW).ok().unwrap();
    assert_eq!(service.gate(Some(&session.session_id), NOW + 1), Ok(bob.id.clone()));

    // Crossed credentials do not work.
    let crossed = LoginPayload {
        email: String::from("a@x.com"),
        password: String::from("swordfish"),
    };
    assert!(matches!(service.login(&crossed, NOW), Err(AuthError::InvalidCredentials)));
}
