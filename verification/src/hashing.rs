//! The credential hasher: salted, irreversible digests of plaintext passwords,
//! and verification of a plaintext candidate against a stored digest.

use vstd::prelude::*;
use rand::RngCore;
use crate::AuthError;

verus! {

/// The fixed, moderate work factor used for newly stored credentials.
pub const CREDENTIAL_COST: u32 = 10;

/// The lowest work factor bcrypt accepts.
pub const MIN_COST: u32 = 4;

/// The highest work factor bcrypt accepts.
pub const MAX_COST: u32 = 31;

/// A work factor the hashing primitive accepts.
pub open spec fn valid_cost(cost: u32) -> bool {
    MIN_COST <= cost <= MAX_COST
}

/// The digest string bcrypt derives from a work factor, a 16-byte salt and a
/// password. The result is a function of these three arguments alone.
pub uninterp spec fn bcrypt_digest_of(cost: u32, salt: Seq<u8>, password: Seq<char>) -> Seq<char>;

/// Whether bcrypt verification accepts a password candidate against a digest
/// string. The outcome is a function of the two arguments alone.
pub uninterp spec fn bcrypt_accepts(password: Seq<char>, digest: Seq<char>) -> bool;

/// A string is a digest that the hashing primitive could have produced.
pub open spec fn is_bcrypt_digest(digest: Seq<char>) -> bool {
    exists|cost: u32, salt: Seq<u8>, password: Seq<char>|
        valid_cost(cost) && salt.len() == 16 && digest == bcrypt_digest_of(cost, salt, password)
}

/// Relies on rand::rngs::OsRng::fill_bytes: fills the salt from the operating
/// system's entropy source. Nothing can be promised of the bytes drawn.
#[verifier::external_body]
fn os_random_salt() -> (r: [u8; 16]) {
    let mut salt = [0u8; 16];
    rand::rngs::OsRng.fill_bytes(&mut salt);
    salt
}

/// Relies on bcrypt::hash_with_salt and bcrypt::HashParts::format_for_version:
/// hashing fails exactly when the work factor is outside bcrypt's accepted
/// range (an over-long password is truncated, never rejected); the digest
/// string is a function of (cost, salt, password) alone; bcrypt::verify
/// accepts the same password against it; and the digest embeds its salt,
/// base64-encoded at a fixed position, so digests made with another salt
/// are distinct strings.
#[verifier::external_body]
fn bcrypt_hash_with_salt(password: &str, cost: u32, salt: &[u8; 16]) -> (r: Option<String>)
    ensures
        r is Some <==> valid_cost(cost),
        r is Some ==> r->0@ == bcrypt_digest_of(cost, salt@, password@),
        r is Some ==> bcrypt_accepts(password@, r->0@),
        r is Some ==> forall|c2: u32, s2: Seq<u8>, p2: Seq<char>|
            valid_cost(c2) && s2.len() == 16 && s2 != salt@ ==> bcrypt_digest_of(c2, s2, p2)
                != r->0@,
{
    match bcrypt::hash_with_salt(password, cost, *salt) {
        Ok(parts) => Some(parts.format_for_version(bcrypt::Version::TwoB)),
        Err(_) => None,
    }
}

/// Relies on bcrypt::verify: the outcome is a function of (password, digest)
/// alone; it fails exactly on a digest string that does not parse as a bcrypt
/// hash, so it always succeeds on a digest bcrypt itself produced.
#[verifier::external_body]
fn bcrypt_verify(password: &str, digest: &str) -> (r: Option<bool>)
    ensures
        r is Some ==> r->0 == bcrypt_accepts(password@, digest@),
        is_bcrypt_digest(digest@) ==> r is Some,
{
    match bcrypt::verify(password, digest) {
        Ok(accepted) => Some(accepted),
        Err(_) => None,
    }
}

/// A stored password digest. By construction it is always a digest the
/// hashing primitive produced, so verification against it cannot fail.
pub struct PasswordDigest {
    digest: String,
}

impl View for PasswordDigest {
    type V = Seq<char>;

    closed spec fn view(&self) -> Seq<char> {
        self.digest@
    }
}

impl PasswordDigest {
    #[verifier::type_invariant]
    spec fn inv(self) -> bool {
        is_bcrypt_digest(self.digest@)
    }

    /// The digest rendered as the self-describing string that is stored.
    pub fn as_str(&self) -> (r: &str)
        ensures
            r@ == self@,
    {
        self.digest.as_str()
    }
}

impl Clone for PasswordDigest {
    fn clone(&self) -> (r: Self)
        ensures
            r@ == self@,
    {
        proof {
            use_type_invariant(self);
        }
        PasswordDigest { digest: self.digest.clone() }
    }
}

/// Hashes a plaintext with a caller-chosen work factor and a fresh random
/// salt. Fails exactly when the work factor is outside the accepted range.
pub fn hash_password_with_cost(password: &str, cost: u32) -> (r: Result<PasswordDigest, AuthError>)
    ensures
        r is Ok <==> valid_cost(cost),
        r is Err ==> r->Err_0 == AuthError::HashingError,
        r is Ok ==> exists|salt: Seq<u8>|
            salt.len() == 16 && r->Ok_0@ == bcrypt_digest_of(cost, salt, password@),
        r is Ok ==> bcrypt_accepts(password@, r->Ok_0@),
{
    let salt = os_random_salt();
    match bcrypt_hash_with_salt(password, cost, &salt) {
        Some(digest) => {
            proof {
                assert(salt@.len() == 16 && digest@ == bcrypt_digest_of(cost, salt@, password@));
            }
            Ok(PasswordDigest { digest })
        },
        None => Err(AuthError::HashingError),
    }
}

/// Hashes a plaintext with the fixed work factor and a fresh random salt.
/// With a valid work factor bcrypt accepts every input, so this cannot fail.
pub fn hash_password(password: &str) -> (r: PasswordDigest)
    ensures
        exists|salt: Seq<u8>|
            salt.len() == 16 && r@ == bcrypt_digest_of(CREDENTIAL_COST, salt, password@),
        bcrypt_accepts(password@, r@),
{
    match hash_password_with_cost(password, CREDENTIAL_COST) {
        Ok(digest) => digest,
        Err(_) => vstd::pervasive::unreached(),
    }
}

/// Verifies a plaintext candidate against a stored digest string. A mismatch
/// is `Ok(false)`, not an error; the only failure is a malformed digest
/// (corrupt storage), which a digest the hasher produced can never be.
pub fn verify_password(password: &str, digest: &str) -> (r: Result<bool, AuthError>)
    ensures
        r is Ok ==> r->Ok_0 == bcrypt_accepts(password@, digest@),
        r is Err ==> r->Err_0 == AuthError::HashingError && !is_bcrypt_digest(digest@),
{
    match bcrypt_verify(password, digest) {
        Some(accepted) => Ok(accepted),
        None => Err(AuthError::HashingError),
    }
}

/// Verifies a plaintext candidate against a digest the hasher produced.
/// Such a digest always parses, so the check is total.
pub fn check_credential(password: &str, digest: &PasswordDigest) -> (r: bool)
    ensures
        r == bcrypt_accepts(password@, digest@),
{
    proof {
        use_type_invariant(digest);
    }
    match bcrypt_verify(password, digest.as_str()) {
        Some(accepted) => accepted,
        None => vstd::pervasive::unreached(),
    }
}

/// Law: a freshly hashed credential verifies against its own plaintext, for
/// every password and before any storage round trip.
pub fn credential_round_trip(password: &str) -> (r: bool)
    ensures
        r == true,
{
    let digest = hash_password(password);
    check_credential(password, &digest)
}

/// Law: the digest embeds its salt, so hashing one plaintext under two
/// distinct salts yields two distinct digest strings. Since every hash draws
/// a fresh random salt, repeated hashes of one plaintext differ whenever
/// their salts do.
pub fn distinct_salts_give_distinct_digests(
    password: &str,
    salt1: &[u8; 16],
    salt2: &[u8; 16],
) -> (r: (String, String))
    requires
        salt1@ != salt2@,
    ensures
        r.0@ != r.1@,
        r.0@ == bcrypt_digest_of(CREDENTIAL_COST, salt1@, password@),
        r.1@ == bcrypt_digest_of(CREDENTIAL_COST, salt2@, password@),
{
    let first = match bcrypt_hash_with_salt(password, CREDENTIAL_COST, salt1) {
        Some(digest) => digest,
        None => vstd::pervasive::unreached(),
    };
    let second = match bcrypt_hash_with_salt(password, CREDENTIAL_COST, salt2) {
        Some(digest) => digest,
        None => vstd::pervasive::unreached(),
    };
    (first, second)
}

} // verus!
