//! The closed sets of failures that the components report.

use vstd::prelude::*;

verus! {

/// The input field that a validation failure is about.
#[derive(Clone, Copy, Debug, PartialEq, Eq, Structural)]
pub enum Field {
    Name,
    Email,
    Password,
    PasswordConfirm,
    RefreshToken,
    ShareId,
    FileId,
    UserId,
    RecipientEmail,
    ExpirationDate,
    Page,
    File,
}

/// Why a password could not be hashed or compared.
#[derive(Clone, Copy, Debug, PartialEq, Eq, Structural)]
pub enum PasswordError {
    /// The password has no characters.
    Empty,
    /// The password is longer than `MAX_PASSWORD_LENGTH` bytes.
    TooLong,
    /// The hashing function refused the password or the salt.
    Hashing,
    /// The stored hash is no PHC string with the default parameters.
    InvalidHash,
}

/// Why a token was not issued or not accepted.
#[derive(Clone, Copy, Debug, PartialEq, Eq, Structural)]
pub enum TokenError {
    /// The subject of a token to issue is empty.
    EmptySubject,
    /// The expiry of a token to issue does not fit the claim.
    ExpiryOutOfRange,
    /// The signer refused the claims.
    Signing,
    /// The token is malformed, carries a bad signature, or has expired.
    InvalidToken,
}

/// Key generation, key wrapping or the cipher failed. The cause is deliberately
/// not told apart: a caller must not learn which step rejected its input.
#[derive(Clone, Copy, Debug, PartialEq, Eq, Structural)]
pub struct CryptoError;

/// What an operation of the service reports in place of a result.
#[derive(Clone, Copy, Debug, PartialEq, Eq, Structural)]
pub enum ServiceError {
    /// Malformed input, with the field at fault.
    Validation(Field),
    /// No token, an invalid or expired token, or a failed access check.
    Unauthorized,
    /// No such user, file or share link.
    NotFound,
    /// A registration under an email that is taken, or an identity that is in use.
    Conflict,
    /// Key generation, wrapping, unwrapping or the cipher failed.
    Crypto,
    /// The caller is known but may not do this.
    Forbidden,
}

impl ServiceError {
    /// The transport status that stands for the failure.
    pub open spec fn status(self) -> int {
        match self {
            ServiceError::Validation(_) => 400,
            ServiceError::Unauthorized => 401,
            ServiceError::Forbidden => 403,
            ServiceError::NotFound => 404,
            ServiceError::Conflict => 409,
            ServiceError::Crypto => 500,
        }
    }

    /// The transport status that stands for the failure.
    pub fn status_code(&self) -> (r: i32)
        ensures
            r == self.status(),
    {
        match self {
            ServiceError::Validation(_) => 400,
            ServiceError::Unauthorized => 401,
            ServiceError::Forbidden => 403,
            ServiceError::NotFound => 404,
            ServiceError::Conflict => 409,
            ServiceError::Crypto => 500,
        }
    }

    /// A short text for the failure that tells no cause apart within a category.
    pub fn message(&self) -> (r: &'static str)
        ensures
            r@ == self.text(),
    {
        match self {
            ServiceError::Validation(_) => "invalid input",
            ServiceError::Unauthorized => "unauthorized",
            ServiceError::Forbidden => "forbidden",
            ServiceError::NotFound => "not found",
            ServiceError::Conflict => "conflict",
            ServiceError::Crypto => "cryptographic failure",
        }
    }

    /// The text that `message` returns.
    pub open spec fn text(self) -> Seq<char> {
        match self {
            ServiceError::Validation(_) => "invalid input"@,
            ServiceError::Unauthorized => "unauthorized"@,
            ServiceError::Forbidden => "forbidden"@,
            ServiceError::NotFound => "not found"@,
            ServiceError::Conflict => "conflict"@,
            ServiceError::Crypto => "cryptographic failure"@,
        }
    }
}

} // verus!
