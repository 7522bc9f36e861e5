//! Salted password hashing: PBKDF2 with HMAC-SHA256 over a base64 salt,
//! stored as base64 text.
use vstd::prelude::*;
use vstd::string::StringSliceAdditionalSpecFns;
use crate::errors::AuthError;

verus! {

/// Rounds of the key derivation.
pub const PBKDF2_ITERATIONS: u32 = 1000;

/// Length in bytes of a derived credential (one SHA-256 output).
pub const CREDENTIAL_LEN: usize = 32;

/// Longest salt, password or stored key that the derivation is given.
pub const MAX_KDF_INPUT_LEN: usize = 4294967295;

/// The bytes that a text in standard padded base64 encodes, if it is one.
pub uninterp spec fn base64_decoded(text: Seq<char>) -> Option<Seq<u8>>;

/// The standard padded base64 text of some bytes.
pub uninterp spec fn base64_encoded(bytes: Seq<u8>) -> Seq<char>;

/// The first `len` bytes of the PBKDF2-HMAC-SHA256 key of `secret` under `salt`.
pub uninterp spec fn pbkdf2_sha256(salt: Seq<u8>, secret: Seq<u8>, iterations: u32, len: nat) -> Seq<u8>;

/// Relies on base64's `Engine::decode` of the standard engine: the bytes that
/// the text encodes, or an error where it is not canonical padded base64.
#[verifier::external_body]
fn decode_base64(text: &str) -> (r: Option<Vec<u8>>)
    ensures
        (match r {
            Some(b) => base64_decoded(text@) == Some(b@),
            None => base64_decoded(text@) is None,
        }),
{
    match base64::Engine::decode(&base64::engine::general_purpose::STANDARD, text) {
        Ok(b) => Some(b),
        Err(_) => None,
    }
}

/// Relies on base64's `Engine::encode` of the standard engine: padded text,
/// which the same engine decodes back to the same bytes.
#[verifier::external_body]
fn encode_base64(bytes: &[u8]) -> (r: String)
    ensures
        r@ == base64_encoded(bytes@),
        base64_decoded(r@) == Some(bytes@),
{
    base64::Engine::encode(&base64::engine::general_purpose::STANDARD, bytes)
}

/// Relies on `ring::pbkdf2::derive` with `PBKDF2_HMAC_SHA256`: it fills the
/// output with the derived key. It panics only on inputs far beyond the bounds
/// required here.
#[verifier::external_body]
fn pbkdf2_derive(iterations: u32, salt: &[u8], secret: &[u8], len: usize) -> (r: Vec<u8>)
    requires
        iterations > 0,
        salt@.len() <= MAX_KDF_INPUT_LEN,
        secret@.len() <= MAX_KDF_INPUT_LEN,
        len <= MAX_KDF_INPUT_LEN,
    ensures
        r@ == pbkdf2_sha256(salt@, secret@, iterations, len as nat),
        r@.len() == len,
{
    let mut out = vec![0u8; len];
    ring::pbkdf2::derive(
        ring::pbkdf2::PBKDF2_HMAC_SHA256,
        std::num::NonZeroU32::new(iterations).unwrap(),
        salt,
        secret,
        &mut out,
    );
    out
}

/// Relies on `ring::pbkdf2::verify` with `PBKDF2_HMAC_SHA256`: success exactly
/// when the stored key is not empty and equals the key of its own length
/// derived from the salt and the secret, compared in constant time.
#[verifier::external_body]
fn pbkdf2_verify(iterations: u32, salt: &[u8], secret: &[u8], stored: &[u8]) -> (r: bool)
    requires
        iterations > 0,
        salt@.len() <= MAX_KDF_INPUT_LEN,
        secret@.len() <= MAX_KDF_INPUT_LEN,
        stored@.len() <= MAX_KDF_INPUT_LEN,
    ensures
        r == (stored@.len() > 0 && stored@ == pbkdf2_sha256(
            salt@,
            secret@,
            iterations,
            stored@.len(),
        )),
{
    ring::pbkdf2::verify(
        ring::pbkdf2::PBKDF2_HMAC_SHA256,
        std::num::NonZeroU32::new(iterations).unwrap(),
        salt,
        secret,
        stored,
    ).is_ok()
}

/// The derivation accepts these bytes.
pub open spec fn kdf_input(b: Seq<u8>) -> bool {
    b.len() <= MAX_KDF_INPUT_LEN
}

/// The raw credential derived from a password under a decoded salt.
pub open spec fn credential_of(salt: Seq<u8>, password: Seq<u8>) -> Seq<u8> {
    pbkdf2_sha256(salt, password, PBKDF2_ITERATIONS, CREDENTIAL_LEN as nat)
}

/// A hash can be derived: the salt is base64 and both inputs are in bounds.
pub open spec fn can_derive(password: Seq<u8>, salt: Seq<char>) -> bool {
    match base64_decoded(salt) {
        Some(s) => kdf_input(s) && kdf_input(password),
        None => false,
    }
}

/// `hash` is the stored form of the credential of `password` under `salt`:
/// base64 text that decodes to that credential.
pub open spec fn is_derived_hash(password: Seq<u8>, salt: Seq<char>, hash: Seq<char>) -> bool {
    match base64_decoded(salt) {
        Some(s) => {
            &&& kdf_input(s)
            &&& kdf_input(password)
            &&& credential_of(s, password).len() == CREDENTIAL_LEN
            &&& hash == base64_encoded(credential_of(s, password))
            &&& base64_decoded(hash) == Some(credential_of(s, password))
        },
        None => false,
    }
}

/// The attempted password matches the stored salt and hash: both decode, all
/// inputs are in bounds, and the stored key is the non-empty key of its own
/// length derived from the password.
pub open spec fn password_matches(salt: Seq<char>, stored: Seq<char>, password: Seq<u8>) -> bool {
    match (base64_decoded(salt), base64_decoded(stored)) {
        (Some(s), Some(h)) => {
            &&& kdf_input(s)
            &&& kdf_input(h)
            &&& kdf_input(password)
            &&& h.len() > 0
            &&& h == pbkdf2_sha256(s, password, PBKDF2_ITERATIONS, h.len())
        },
        _ => false,
    }
}

/// Derives the stored form of a password under a base64 salt; `None` where the
/// salt is not base64 or an input is out of bounds.
pub fn derive_password_hash(password: &str, salt: &str) -> (r: Option<String>)
    ensures
        r is Some <==> can_derive(password.spec_bytes(), salt@),
        r matches Some(h) ==> is_derived_hash(password.spec_bytes(), salt@, h@),
{
    let decoded_salt = match decode_base64(salt) {
        Some(s) => s,
        None => return None,
    };
    let secret = password.as_bytes();
    if decoded_salt.len() > MAX_KDF_INPUT_LEN || secret.len() > MAX_KDF_INPUT_LEN {
        return None;
    }
    let key = pbkdf2_derive(PBKDF2_ITERATIONS, decoded_salt.as_slice(), secret, CREDENTIAL_LEN);
    Some(encode_base64(key.as_slice()))
}

/// Checks an attempted password against a stored salt and hash. A malformed
/// salt or hash is reported as a mismatch.
pub fn verify_password(salt: &str, stored: &str, attempted: &str) -> (r: Result<(), AuthError>)
    ensures
        r is Ok <==> password_matches(salt@, stored@, attempted.spec_bytes()),
        r is Err ==> r == Err::<(), AuthError>(AuthError::InvalidCredentials),
{
    let decoded_salt = match decode_base64(salt) {
        Some(s) => s,
        None => return Err(AuthError::InvalidCredentials),
    };
    let decoded_stored = match decode_base64(stored) {
        Some(h) => h,
        None => return Err(AuthError::InvalidCredentials),
    };
    let secret = attempted.as_bytes();
    if decoded_salt.len() > MAX_KDF_INPUT_LEN || decoded_stored.len() > MAX_KDF_INPUT_LEN
        || secret.len() > MAX_KDF_INPUT_LEN {
        return Err(AuthError::InvalidCredentials);
    }
    if pbkdf2_verify(
        PBKDF2_ITERATIONS,
        decoded_salt.as_slice(),
        secret,
        decoded_stored.as_slice(),
    ) {
        Ok(())
    } else {
        Err(AuthError::InvalidCredentials)
    }
}

/// A hash derived from a password under a salt verifies that password under
/// that salt.
pub proof fn lemma_derived_hash_verifies(password: Seq<u8>, salt: Seq<char>, hash: Seq<char>)
    requires
        is_derived_hash(password, salt, hash),
    ensures
        password_matches(salt, hash, password),
{
}

} // verus!
