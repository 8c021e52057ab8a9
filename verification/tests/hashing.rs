//! Behaviour of the credential hasher: round trips, salt freshness, and the
//! failure surface of hashing and verification.

use rustier_auth::AuthError;
use rustier_auth::hashing::{
    CREDENTIAL_COST, MAX_COST, MIN_COST, credential_round_trip, hash_password,
    hash_password_with_cost, verify_password,
};

#[test]
fn hash_then_verify_same_plaintext_is_true() {
    let digest = hash_password("hunter2");
    assert_eq!(verify_password("hunter2", digest.as_str()), Ok(true));
}

#[test]
fn verify_with_different_plaintext_is_false() {
    let digest = hash_password("hunter2");
    assert_eq!(verify_password("hunter3", digest.as_str()), Ok(false));
    assert_eq!(verify_password("", digest.as_str()), Ok(false));
    assert_eq!(verify_password("Hunter2", digest.as_str()), Ok(false));
}

#[test]
fn round_trip_law_holds_on_sample_inputs() {
    assert!(credential_round_trip("hunter2"));
    assert!(credential_round_trip(""));
    assert!(credential_round_trip("pässwörd with ünïcode"));
}

#[test]
fn digest_is_not_the_plaintext() {
    let digest = hash_password("hunter2");
    assert_ne!(digest.as_str(), "hunter2");
    assert_eq!(digest.as_str().len(), 60);
}

#[test]
fn distinct_salts_law_holds_on_sample_salts() {
    let salt1 = [0u8; 16];
    let mut salt2 = [0u8; 16];
    salt2[15] = 1;
    let (first, second) =
        rustier_auth::hashing::distinct_salts_give_distinct_digests("hunter2", &salt1, &salt2);
    assert_ne!(first, second);
    assert_eq!(verify_password("hunter2", &first), Ok(true));
    assert_eq!(verify_password("hunter2", &second), Ok(true));
}

#[test]
fn two_hashes_of_identical_plaintext_differ() {
    let first = hash_password("hunter2");
    let second = hash_password("hunter2");
    assert_ne!(first.as_str(), second.as_str());
    assert_eq!(verify_password("hunter2", first.as_str()), Ok(true));
    assert_eq!(verify_password("hunter2", second.as_str()), Ok(true));
}

#[test]
fn empty_password_round_trips() {
    let digest = hash_password("");
    assert_eq!(verify_password("", digest.as_str()), Ok(true));
    assert_eq!(verify_password("x", digest.as_str()), Ok(false));
}

#[test]
fn configurable_cost_round_trips() {
    let digest = hash_password_with_cost("hunter2", MIN_COST).expect("lowest cost is accepted");
    assert_eq!(verify_password("hunter2", digest.as_str()), Ok(true));
    assert_eq!(verify_password("wrong", digest.as_str()), Ok(false));
}

#[test]
fn out_of_range_cost_is_a_hashing_error() {
    assert!(matches!(
        hash_password_with_cost("hunter2", MIN_COST - 1),
        Err(AuthError::HashingError)
    ));
    assert!(matches!(
        hash_password_with_cost("hunter2", MAX_COST + 1),
        Err(AuthError::HashingError)
    ));
    assert!(matches!(
        hash_password_with_cost("hunter2", 0),
        Err(AuthError::HashingError)
    ));
}

#[test]
fn default_cost_is_in_the_accepted_range() {
    assert!(MIN_COST <= CREDENTIAL_COST && CREDENTIAL_COST <= MAX_COST);
    assert!(hash_password_with_cost("hunter2", CREDENTIAL_COST).is_ok());
}

#[test]
fn malformed_digest_is_a_verification_error_not_a_mismatch() {
    assert!(matches!(
        verify_password("hunter2", "not a digest"),
        Err(AuthError::HashingError)
    ));
    assert!(matches!(verify_password("hunter2", ""), Err(AuthError::HashingError)));
    let truncated = "$2b$10$HlFShUxTu4ZHHfOLJwfmCe";
    assert!(matches!(verify_password("hunter2", truncated), Err(AuthError::HashingError)));
}

#[test]
fn digest_embeds_work_factor_and_salt() {
    // Self-describing format: version, two-digit cost, then salt and hash.
    let digest = hash_password("hunter2");
    let text = digest.as_str();
    assert!(text.starts_with("$2b$10$"));
}
