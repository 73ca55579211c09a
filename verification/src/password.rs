//! One-way password hashing and verification with Argon2.

use argon2::PasswordHasher;
use argon2::PasswordVerifier;
use crate::text::{holds_text, starts_with_text};
use vstd::prelude::*;

verus! {

/// Hashing failed: the salt or the parameters were not accepted.
#[derive(Debug, Clone, Copy, PartialEq, Eq, Structural)]
pub enum HashError {
    HashingFailure,
}

/// Whether a text parses as a password hash in PHC string format.
pub uninterp spec fn phc_well_formed(hash: Seq<char>) -> bool;

/// Whether Argon2, run on `raw` with the salt and parameters that the
/// well-formed `hash` names, gives the output that `hash` holds.
pub uninterp spec fn argon2_matches(raw: Seq<char>, hash: Seq<char>) -> bool;

/// The PHC string that Argon2 with default parameters derives from `raw`
/// and `salt`, if the salt is acceptable.
pub uninterp spec fn argon2_phc(raw: Seq<char>, salt: Seq<char>) -> Option<Seq<char>>;

/// Whether a character is of the standard base64 alphabet: a letter, a
/// digit, `+` or `/`.
pub open spec fn is_base64_char(c: char) -> bool {
    ('A' <= c && c <= 'Z') || ('a' <= c && c <= 'z') || ('0' <= c && c <= '9') || c == '+' || c
        == '/'
}

/// The shape of a fresh salt: 22 characters of the standard base64
/// alphabet, which is what sixteen bytes come to.
pub open spec fn is_salt_text(salt: Seq<char>) -> bool {
    salt.len() == 22 && forall|i: int| 0 <= i < 22 ==> is_base64_char(#[trigger] salt[i])
}

/// A hash describes itself: it begins with the name of the algorithm
/// and holds the salt it was made with.
pub open spec fn self_describing(hash: Seq<char>, salt: Seq<char>) -> bool {
    starts_with_text(hash, "$argon2id$"@) && holds_text(hash, salt)
}

/// A password verifies against a hash that is well-formed and that it
/// reproduces. A malformed hash verifies against nothing.
pub open spec fn verify_password_spec(raw: Seq<char>, hash: Seq<char>) -> bool {
    phc_well_formed(hash) && argon2_matches(raw, hash)
}

/// The error of `password_hash`, carried from a failed call to where it
/// is mapped to `HashError`. Nothing is known of what it holds.
#[verifier::external_type_specification]
#[verifier::external_body]
pub struct ExPasswordHashError(argon2::password_hash::Error);

/// A fresh random salt in the text form that hashing takes.
///
/// Trusted: calls `SaltString::generate` of `password_hash` on the
/// thread's random generator, which encodes sixteen random bytes in
/// standard base64 without padding. Nothing more is known of the salt
/// than this shape.
#[verifier::external_body]
pub(crate) fn fresh_salt() -> (salt: String)
    ensures
        is_salt_text(salt@),
{
    argon2::password_hash::SaltString::generate(&mut rand::thread_rng()).as_str().to_string()
}

/// Whether `hash` parses as a PHC string.
///
/// Trusted: calls `PasswordHash::new` of `password_hash` and reports
/// whether it succeeded.
#[verifier::external_body]
pub(crate) fn phc_parses(hash: &str) -> (ok: bool)
    ensures
        ok == phc_well_formed(hash@),
{
    argon2::PasswordHash::new(hash).is_ok()
}

/// Whether `raw` reproduces the well-formed `hash`.
///
/// Trusted: calls `verify_password` of `Argon2::default()` on the parsed
/// hash, which recomputes with the salt and parameters found in it and
/// compares the outputs in constant time.
#[verifier::external_body]
pub(crate) fn argon2_check(raw: &str, hash: &str) -> (ok: bool)
    requires
        phc_well_formed(hash@),
    ensures
        ok == argon2_matches(raw@, hash@),
{
    match argon2::PasswordHash::new(hash) {
        Ok(parsed) => argon2::Argon2::default().verify_password(raw.as_bytes(), &parsed).is_ok(),
        Err(_) => false,
    }
}

/// The PHC string for `raw` under `salt`.
///
/// Trusted: calls `hash_password` of `Argon2::default()`, with the salt
/// parsed by `Salt::from_b64`. The result is a function of password and
/// salt alone. A string that comes back is written as `$argon2id$`, the
/// version, the parameters, the salt as it was given and the output, so
/// it parses, and verifying the same password against it repeats the
/// same computation and succeeds.
#[verifier::external_body]
pub(crate) fn argon2_derive(raw: &str, salt: &str) -> (r: Result<
    String,
    argon2::password_hash::Error,
>)
    ensures
        match r {
            Ok(hash) => argon2_phc(raw@, salt@) == Some(hash@),
            Err(_) => argon2_phc(raw@, salt@) is None,
        },
        r matches Ok(hash) ==> phc_well_formed(hash@) && argon2_matches(raw@, hash@),
        r matches Ok(hash) ==> self_describing(hash@, salt@),
{
    let salt = argon2::password_hash::Salt::from_b64(salt)?;
    Ok(argon2::Argon2::default().hash_password(raw.as_bytes(), salt)?.to_string())
}

/// Hashes `raw` under the given salt. The hash names its algorithm and
/// holds its salt, and the password it was made from verifies against
/// it.
pub fn hash_password_with_salt(raw: &str, salt: &str) -> (r: Result<String, HashError>)
    ensures
        match r {
            Ok(hash) => {
                &&& argon2_phc(raw@, salt@) == Some(hash@)
                &&& verify_password_spec(raw@, hash@)
                &&& self_describing(hash@, salt@)
            },
            Err(e) => e == HashError::HashingFailure && argon2_phc(raw@, salt@) is None,
        },
{
    match argon2_derive(raw, salt) {
        Ok(hash) => Ok(hash),
        Err(_) => Err(HashError::HashingFailure),
    }
}

/// Hashes `raw` under a fresh random salt. The hash is the one that
/// Argon2 derives under the salt drawn, the password verifies against
/// it, and the call fails only where Argon2 derives none under that salt.
pub fn hash_password(raw: &str) -> (r: Result<String, HashError>)
    ensures
        exists|salt: Seq<char>|
            #![trigger argon2_phc(raw@, salt)]
            is_salt_text(salt) && match r {
                Ok(hash) => argon2_phc(raw@, salt) == Some(hash@) && self_describing(hash@, salt),
                Err(e) => e == HashError::HashingFailure && argon2_phc(raw@, salt) is None,
            },
        r matches Ok(hash) ==> verify_password_spec(raw@, hash@),
{
    let salt = fresh_salt();
    let r = hash_password_with_salt(raw, salt.as_str());
    assert(is_salt_text(salt@) && match r {
        Ok(hash) => argon2_phc(raw@, salt@) == Some(hash@) && self_describing(hash@, salt@),
        Err(e) => e == HashError::HashingFailure && argon2_phc(raw@, salt@) is None,
    });
    r
}

/// Whether `raw` is the password that `hash` was made from. A malformed
/// hash gives `false`.
pub fn verify_password(raw: &str, hash: &str) -> (ok: bool)
    ensures
        ok == verify_password_spec(raw@, hash@),
{
    if phc_parses(hash) {
        argon2_check(raw, hash)
    } else {
        false
    }
}

} // verus!
