//! Rules of the identity service: how login e-mails are normalised, which
//! credentials are looked up at all, how passwords are hashed and checked,
//! and what a successful login answers.
use vstd::prelude::*;

use argon2::{PasswordHasher, PasswordVerifier};

use crate::api::ApiError;
use crate::text::{byte_len, trim, trimmed, utf8_len};

verus! {

/// Longest normalised e-mail a login may carry, in UTF-8 bytes.
pub const MAX_EMAIL_BYTES: usize = 320;

/// Longest password a login may carry, in bytes.
pub const MAX_PASSWORD_BYTES: usize = 1024;

/// Token type of a login answer.
pub const TOKEN_TYPE: &'static str = "Bearer";

/// Seconds a login's access token is valid, as the login answer states it.
pub const ACCESS_TOKEN_SECONDS: u64 = 3600;

/// Display name of the seeded creator account.
pub const SEED_DISPLAY_NAME: &'static str = "OpenTube Creator";

/// A creator account ready to be stored.
#[derive(Debug)]
pub struct SeedUser {
    pub email: String,
    pub password_hash: String,
}

/// The lowercase mapping of `s` that `str::to_lowercase` computes.
pub uninterp spec fn unicode_lowercase(s: Seq<char>) -> Seq<char>;

/// The PHC string that `Argon2::default().hash_password` produces for a
/// password and a base64 salt; `None` when the salt is not a valid salt string
/// or hashing fails.
pub uninterp spec fn argon2_phc_hash(password: Seq<u8>, salt: Seq<char>) -> Option<Seq<char>>;

/// Whether `Argon2::default().verify_password` accepts a password against a
/// PHC string: `None` when the string does not parse as a password hash.
pub uninterp spec fn argon2_check(password: Seq<u8>, phc: Seq<char>) -> Option<bool>;

/// The e-mail as accounts are keyed by it: trimmed, then lowercased.
pub open spec fn normalized_email(email: Seq<char>) -> Seq<char> {
    unicode_lowercase(trimmed(email))
}

/// `str::to_lowercase`: the Unicode lowercase mapping of `s`, named
/// `unicode_lowercase`.
#[verifier::external_body]
fn to_lowercase(s: &str) -> (r: String)
    ensures
        r@ == unicode_lowercase(s@),
{
    s.to_lowercase()
}

/// Bytes of random salt a new password is hashed with: the 16 bytes that
/// `SaltString::generate` draws.
pub const SALT_BYTES: usize = 16;

/// Longest password Argon2 accepts, in bytes (`argon2::MAX_PWD_LEN`).
pub const ARGON2_MAX_PASSWORD_BYTES: u64 = 0xFFFF_FFFF;

/// The unpadded standard-alphabet B64 text that `SaltString::encode_b64`
/// writes for `bytes`.
pub uninterp spec fn salt_b64(bytes: Seq<u8>) -> Seq<char>;

/// Why a new password could not be hashed.
#[derive(Debug, Clone, Copy, PartialEq, Eq, Structural)]
pub enum HashFailure {
    /// The operating system's random source reported an error while the salt
    /// was drawn.
    RandomSource,
    /// Argon2 refused to hash the password under the drawn salt.
    Hashing,
}

/// `OsRng.try_fill_bytes` on a buffer of `len` bytes: `len` bytes from the
/// operating system's random source, or `None` when that source reports an
/// error. Nothing is stated of the bytes themselves.
#[verifier::external_body]
fn random_bytes(len: usize) -> (r: Option<Vec<u8>>)
    ensures
        r matches Some(b) ==> b@.len() == len,
{
    let mut bytes = vec![0u8; len];
    match password_hash::rand_core::RngCore::try_fill_bytes(&mut password_hash::rand_core::OsRng, &mut bytes) {
        Ok(()) => Some(bytes),
        Err(_) => None,
    }
}

/// `SaltString::encode_b64(bytes)` as text: the B64 encoding of the bytes,
/// named `salt_b64`. A salt string holds at most 64 characters, so it fails
/// exactly when the bytes are more than 48.
#[verifier::external_body]
fn encode_salt(bytes: &[u8]) -> (r: Option<String>)
    ensures
        r matches Some(s) ==> s@ == salt_b64(bytes@),
        r is None <==> bytes@.len() > 48,
{
    match password_hash::SaltString::encode_b64(bytes) {
        Ok(salt) => Some(salt.as_str().to_owned()),
        Err(_) => None,
    }
}

/// `Argon2::default().hash_password(password, &salt)` rendered as its PHC
/// string, with the salt parsed by `SaltString::from_b64`; named
/// `argon2_phc_hash`. It succeeds whenever the salt is the B64 text of 8 to 48
/// bytes and the password has at most `0xFFFF_FFFF` bytes: such a salt parses,
/// decodes back into its bytes and meets Argon2's 8-byte minimum, and Argon2
/// refuses no other input. It fails on a longer password, and on a salt that
/// is the B64 text of fewer than 8 bytes (too short to parse, or refused by
/// Argon2 once decoded). A hash it produces verifies the same password: the
/// PHC string carries the algorithm, version, parameters and salt that
/// `verify_password` recomputes it with.
#[verifier::external_body]
fn argon2_hash(password: &[u8], salt: &str) -> (r: Option<String>)
    ensures
        match r {
            Some(h) => argon2_phc_hash(password@, salt@) == Some(h@),
            None => argon2_phc_hash(password@, salt@) is None,
        },
        r matches Some(h) ==> argon2_check(password@, h@) == Some(true),
        r is None ==> password@.len() > ARGON2_MAX_PASSWORD_BYTES || forall|b: Seq<u8>|
            8 <= b.len() <= 48 ==> #[trigger] salt_b64(b) != salt@,
        r is Some ==> password@.len() <= ARGON2_MAX_PASSWORD_BYTES && forall|b: Seq<u8>|
            b.len() < 8 ==> #[trigger] salt_b64(b) != salt@,
{
    let salt = match password_hash::SaltString::from_b64(salt) {
        Ok(salt) => salt,
        Err(_) => return None,
    };
    match argon2::Argon2::default().hash_password(password, &salt) {
        Ok(hash) => Some(hash.to_string()),
        Err(_) => None,
    }
}

/// `PasswordHash::new(phc)` followed by `Argon2::default().verify_password`:
/// `None` when the string does not parse, else whether the password matches;
/// named `argon2_check`.
#[verifier::external_body]
fn argon2_verify(password: &[u8], phc: &str) -> (r: Option<bool>)
    ensures
        r == argon2_check(password@, phc@),
{
    let parsed = password_hash::PasswordHash::new(phc).ok()?;
    Some(argon2::Argon2::default().verify_password(password, &parsed).is_ok())
}

/// The e-mail as accounts are keyed by it: trimmed, then lowercased.
pub fn normalize_email(email: &str) -> (r: String)
    ensures
        r@ == normalized_email(email@),
{
    to_lowercase(trim(email))
}

/// The account key a login looks up: its normalised e-mail. A login whose
/// normalised e-mail exceeds 320 bytes or whose password exceeds 1024 bytes
/// is answered 401 without a lookup.
pub fn login_lookup_key(email: &str, password: &str) -> (r: Result<String, ApiError>)
    ensures
        r is Ok <==> (utf8_len(normalized_email(email@)) <= MAX_EMAIL_BYTES && utf8_len(password@)
            <= MAX_PASSWORD_BYTES),
        r matches Ok(k) ==> k@ == normalized_email(email@),
        r matches Err(e) ==> e == ApiError::Unauthorized,
{
    let key = normalize_email(email);
    if byte_len(key.as_str()) > MAX_EMAIL_BYTES || byte_len(password) > MAX_PASSWORD_BYTES {
        return Err(ApiError::Unauthorized);
    }
    Ok(key)
}

/// Checks a login password against the stored PHC string: a stored hash that
/// does not parse is answered 500, a wrong password 401.
pub fn check_login_password(password: &[u8], stored_hash: &str) -> (r: Result<(), ApiError>)
    ensures
        match argon2_check(password@, stored_hash@) {
            None => r == Err::<(), ApiError>(ApiError::Internal),
            Some(true) => r is Ok,
            Some(false) => r == Err::<(), ApiError>(ApiError::Unauthorized),
        },
{
    match argon2_verify(password, stored_hash) {
        None => Err(ApiError::Internal),
        Some(true) => Ok(()),
        Some(false) => Err(ApiError::Unauthorized),
    }
}

/// The text of an optional string.
pub open spec fn text_of(o: Option<String>) -> Option<Seq<char>> {
    match o {
        Some(s) => Some(s@),
        None => None,
    }
}

/// The PHC hash of a password under the salt drawn as `salt_bytes`: `None`
/// when the bytes do not fit in a salt string or Argon2 refuses the inputs.
pub open spec fn salted_phc_hash(password: Seq<u8>, salt_bytes: Seq<u8>) -> Option<Seq<char>> {
    if salt_bytes.len() <= 48 {
        argon2_phc_hash(password, salt_b64(salt_bytes))
    } else {
        None
    }
}

/// Hashes a password under the salt whose bytes are given: the salt string
/// is their B64 text, and the result is the Argon2 PHC hash under it. It
/// succeeds exactly for 8 to 48 salt bytes and a password of at most
/// `0xFFFF_FFFF` bytes, and a PHC string returned verifies that password.
pub fn hash_password_with_salt(password: &[u8], salt_bytes: &[u8]) -> (r: Option<String>)
    ensures
        text_of(r) == salted_phc_hash(password@, salt_bytes@),
        r is Some <==> (8 <= salt_bytes@.len() <= 48 && password@.len() <= ARGON2_MAX_PASSWORD_BYTES),
        r matches Some(h) ==> argon2_check(password@, h@) == Some(true),
{
    match encode_salt(salt_bytes) {
        Some(salt) => argon2_hash(password, salt.as_str()),
        None => None,
    }
}

/// Hashes a new password under a fresh random salt of `SALT_BYTES` bytes:
/// the result is the Argon2 PHC hash of the password under that salt, and it
/// verifies that password. It fails only when the random source fails or
/// Argon2 refuses a password longer than `0xFFFF_FFFF` bytes.
pub fn hash_new_password(password: &[u8]) -> (r: Result<String, HashFailure>)
    ensures
        r matches Ok(h) ==> exists|b: Seq<u8>|
            b.len() == SALT_BYTES && #[trigger] salted_phc_hash(password@, b) == Some(h@),
        r matches Ok(h) ==> argon2_check(password@, h@) == Some(true),
        r == Err::<String, HashFailure>(HashFailure::Hashing) ==> password@.len()
            > ARGON2_MAX_PASSWORD_BYTES,
        password@.len() > ARGON2_MAX_PASSWORD_BYTES ==> r is Err,
{
    let bytes = match random_bytes(SALT_BYTES) {
        Some(b) => b,
        None => return Err(HashFailure::RandomSource),
    };
    match hash_password_with_salt(password, bytes.as_slice()) {
        Some(h) => {
            assert(salted_phc_hash(password@, bytes@) == Some(h@));
            Ok(h)
        },
        None => Err(HashFailure::Hashing),
    }
}

/// The seeded creator account: its normalised e-mail and the Argon2 PHC hash
/// of its password under a fresh random salt of `SALT_BYTES` bytes, which
/// verifies that password. It fails only when the random source fails or the
/// password's UTF-8 encoding is longer than `0xFFFF_FFFF` bytes.
pub fn prepare_seed_user(email: &str, password: &str) -> (r: Result<SeedUser, HashFailure>)
    ensures
        r matches Ok(u) ==> u.email@ == normalized_email(email@),
        r matches Ok(u) ==> exists|b: Seq<u8>|
            b.len() == SALT_BYTES && #[trigger] salted_phc_hash(
                vstd::utf8::encode_utf8(password@),
                b,
            ) == Some(u.password_hash@),
        r matches Ok(u) ==> argon2_check(vstd::utf8::encode_utf8(password@), u.password_hash@)
            == Some(true),
        r == Err::<SeedUser, HashFailure>(HashFailure::Hashing) ==> vstd::utf8::encode_utf8(
            password@,
        ).len() > ARGON2_MAX_PASSWORD_BYTES,
        vstd::utf8::encode_utf8(password@).len() > ARGON2_MAX_PASSWORD_BYTES ==> r is Err,
{
    let email = normalize_email(email);
    match hash_new_password(password.as_bytes()) {
        Ok(h) => Ok(SeedUser { email, password_hash: h }),
        Err(e) => Err(e),
    }
}

} // verus!
