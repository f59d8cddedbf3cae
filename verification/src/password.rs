//! Password hashing with a salted, memory-hard function, and verification
//! against a stored hash.

use argon2::{PasswordHasher, PasswordVerifier};
use vstd::prelude::*;
use crate::error::PasswordError;

verus! {

/// The longest password, in bytes, that is hashed or compared.
pub const MAX_PASSWORD_LENGTH: usize = 64;

/// The error of `password_hash`, carried through and never looked into.
#[verifier::external_type_specification]
#[verifier::external_body]
pub struct ExPasswordHashError(argon2::password_hash::Error);

/// The PHC string that Argon2id with its default parameters computes for a
/// password and a B64 salt, or `None` where it refuses them.
pub uninterp spec fn argon2_phc(password: Seq<u8>, salt: Seq<char>) -> Option<Seq<char>>;

/// Whether Argon2 accepts a password against a PHC string, or `None` where the
/// text is not a PHC string.
pub uninterp spec fn argon2_checked(password: Seq<u8>, hash: Seq<char>) -> Option<bool>;

/// `SaltString::generate` on the operating system's generator: a fresh salt in
/// B64 text. Nothing is claimed of the text.
#[verifier::external_body]
pub(crate) fn fresh_salt() -> String {
    argon2::password_hash::SaltString::generate(&mut argon2::password_hash::rand_core::OsRng)
        .as_str()
        .to_string()
}

/// The length of the text that a hash with the default parameters begins
/// with.
pub const PARAMETERS_LENGTH: usize = 31;

/// Whether a PHC string names Argon2id in version 19 with the default
/// parameters: 19456 KiB of memory, two passes, one lane.
pub open spec fn has_parameters(hash: Seq<char>) -> bool {
    hash.len() >= PARAMETERS_LENGTH && hash.subrange(0, PARAMETERS_LENGTH as int)
        == "$argon2id$v=19$m=19456,t=2,p=1$"@
}

/// `Argon2::default().hash_password` on a salt read by `SaltString::from_b64`.
/// The result is the function of password and salt that `argon2_phc` names.
/// A hash that comes out names the default parameters, and verifies against
/// the password it was made from.
#[verifier::external_body]
fn argon2_hash(password: &[u8], salt: &str) -> (r: Result<String, argon2::password_hash::Error>)
    ensures
        match r {
            Ok(h) => argon2_phc(password@, salt@) == Some(h@) && has_parameters(h@)
                && argon2_checked(password@, h@) == Some(true),
            Err(_) => argon2_phc(password@, salt@) is None,
        },
{
    let salt = argon2::password_hash::SaltString::from_b64(salt)?;
    Ok(argon2::Argon2::default().hash_password(password, &salt)?.to_string())
}

/// `Argon2::default().verify_password` on a hash read by `PasswordHash::new`:
/// an error where the text is no PHC string, else whether the password matches.
/// The verification works with the parameters that the hash names, so the
/// hash is held to the default ones: memory and time stay within bounds.
#[verifier::external_body]
fn argon2_verify(password: &[u8], hash: &str) -> (r: Result<bool, argon2::password_hash::Error>)
    requires
        has_parameters(hash@),
    ensures
        match r {
            Ok(b) => argon2_checked(password@, hash@) == Some(b),
            Err(_) => argon2_checked(password@, hash@) is None,
        },
{
    let parsed = argon2::PasswordHash::new(hash)?;
    Ok(argon2::Argon2::default().verify_password(password, &parsed).is_ok())
}

/// Why a password is not taken at all, if it is not.
pub open spec fn refusal(password: Seq<char>) -> Option<PasswordError> {
    if password.len() == 0 {
        Some(PasswordError::Empty)
    } else if vstd::utf8::encode_utf8(password).len() > MAX_PASSWORD_LENGTH {
        Some(PasswordError::TooLong)
    } else {
        None
    }
}

/// What `hash_with_salt` returns.
pub open spec fn hash_spec(password: Seq<char>, salt: Seq<char>) -> Result<
    Seq<char>,
    PasswordError,
> {
    match refusal(password) {
        Some(e) => Err(e),
        None => match argon2_phc(vstd::utf8::encode_utf8(password), salt) {
            Some(h) => Ok(h),
            None => Err(PasswordError::Hashing),
        },
    }
}

/// What `compare` returns. A stored hash that does not name the default
/// parameters is not compared with at all.
pub open spec fn compare_spec(password: Seq<char>, hashed: Seq<char>) -> Result<
    bool,
    PasswordError,
> {
    match refusal(password) {
        Some(e) => Err(e),
        None => if !has_parameters(hashed) {
            Err(PasswordError::InvalidHash)
        } else {
            match argon2_checked(vstd::utf8::encode_utf8(password), hashed) {
                Some(b) => Ok(b),
                None => Err(PasswordError::InvalidHash),
            }
        },
    }
}

fn names_parameters(hashed: &str) -> (r: bool)
    ensures
        r == has_parameters(hashed@),
{
    if hashed.unicode_len() < PARAMETERS_LENGTH {
        return false;
    }
    let begins = hashed.substring_char(0, PARAMETERS_LENGTH).to_owned();
    let expected = "$argon2id$v=19$m=19456,t=2,p=1$".to_owned();
    begins == expected
}

/// Whether `password` opens what was stored as `hashed`.
pub open spec fn matches_hash(password: Seq<char>, hashed: Seq<char>) -> bool {
    compare_spec(password, hashed) == Ok::<bool, PasswordError>(true)
}

/// Why a password is not taken at all, if it is not.
pub fn check_length(password: &str) -> (r: Option<PasswordError>)
    ensures
        r == refusal(password@),
{
    if password.is_empty() {
        Some(PasswordError::Empty)
    } else if password.as_bytes().len() > MAX_PASSWORD_LENGTH {
        Some(PasswordError::TooLong)
    } else {
        None
    }
}

/// Hashes a password under a given salt.
pub fn hash_with_salt(password: &str, salt: &str) -> (r: Result<String, PasswordError>)
    ensures
        match r {
            Ok(h) => hash_spec(password@, salt@) == Ok::<Seq<char>, PasswordError>(h@)
                && matches_hash(password@, h@),
            Err(e) => hash_spec(password@, salt@) == Err::<Seq<char>, PasswordError>(e),
        },
{
    if let Some(e) = check_length(password) {
        return Err(e);
    }
    match argon2_hash(password.as_bytes(), salt) {
        Ok(h) => Ok(h),
        Err(_) => Err(PasswordError::Hashing),
    }
}

/// Hashes a password under a fresh random salt. An empty password and one of
/// more than `MAX_PASSWORD_LENGTH` bytes are refused; a hash that comes out is
/// the one of some salt and verifies against the password.
pub fn hash(password: &str) -> (r: Result<String, PasswordError>)
    ensures
        refusal(password@) matches Some(e) ==> r == Err::<String, PasswordError>(e),
        r matches Err(e) ==> refusal(password@) == Some(e) || (refusal(password@) is None && e
            == PasswordError::Hashing),
        r matches Ok(h) ==> matches_hash(password@, h@) && exists|salt: Seq<char>|
            hash_spec(password@, salt) == Ok::<Seq<char>, PasswordError>(h@),
{
    if let Some(e) = check_length(password) {
        return Err(e);
    }
    let salt = fresh_salt();
    let r = hash_with_salt(password, salt.as_str());
    r
}

/// Compares a password with a stored hash. The comparison of the computed with
/// the stored output is the hashing library's, which makes it in constant time.
pub fn compare(password: &str, hashed_password: &str) -> (r: Result<bool, PasswordError>)
    ensures
        r == compare_spec(password@, hashed_password@),
{
    if let Some(e) = check_length(password) {
        return Err(e);
    }
    if !names_parameters(hashed_password) {
        return Err(PasswordError::InvalidHash);
    }
    match argon2_verify(password.as_bytes(), hashed_password) {
        Ok(b) => Ok(b),
        Err(_) => Err(PasswordError::InvalidHash),
    }
}

} // verus!
