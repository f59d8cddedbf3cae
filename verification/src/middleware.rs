//! The guard before every protected operation: it resolves the caller's
//! identity from a bearer token, or refuses the call.

use vstd::prelude::*;
use crate::auth_controller::secret_of;
use crate::config::Config;
use crate::error::ServiceError;
use crate::ident::{parse_spec, ObjectId};
use crate::token::{decode_token_at, verify_spec};

verus! {

/// The length of the word `Bearer` and the blank behind it.
pub const SCHEME_LENGTH: usize = 7;

/// The token that an authorization header carries: what follows the word
/// `Bearer` and one blank, or `None` where the header does not begin so.
pub open spec fn bearer_token(header: Seq<char>) -> Option<Seq<char>> {
    if header.len() >= SCHEME_LENGTH && header.subrange(0, SCHEME_LENGTH as int) == "Bearer "@ {
        Some(header.subrange(SCHEME_LENGTH as int, header.len() as int))
    } else {
        None
    }
}

/// Takes the token out of an authorization header.
pub fn bearer<'a>(header: &'a str) -> (r: Option<&'a str>)
    ensures
        match r {
            Some(t) => bearer_token(header@) == Some(t@),
            None => bearer_token(header@) is None,
        },
{
    let length = header.unicode_len();
    if length < SCHEME_LENGTH {
        return None;
    }
    let scheme = header.substring_char(0, SCHEME_LENGTH).to_owned();
    let expected = "Bearer ".to_owned();
    if scheme == expected {
        Some(header.substring_char(SCHEME_LENGTH, length))
    } else {
        None
    }
}

/// The identity that a call is made under, or `Unauthorized`: the header
/// must be there and carry a bearer token, the token must be accepted at
/// `now`, and its subject must write an identity.
pub open spec fn authenticate_spec(authorization: Option<Seq<char>>, secret: Seq<u8>, now: i64)
    -> Result<ObjectId, ServiceError> {
    match authorization {
        None => Err(ServiceError::Unauthorized),
        Some(header) => match bearer_token(header) {
            None => Err(ServiceError::Unauthorized),
            Some(token) => match verify_spec(token, secret, now) {
                Err(_) => Err(ServiceError::Unauthorized),
                Ok(subject) => match parse_spec(subject) {
                    None => Err(ServiceError::Unauthorized),
                    Some(id) => Ok(id),
                },
            },
        },
    }
}

/// The view of a header that may be missing.
pub open spec fn header_view(authorization: Option<&str>) -> Option<Seq<char>> {
    match authorization {
        Some(h) => Some(h@),
        None => None,
    }
}

/// Resolves the caller's identity from the authorization header of a call.
/// Every failure is `Unauthorized`, and comes before any operation runs.
pub fn validator(authorization: Option<&str>, config: &Config, now: i64) -> (r: Result<
    ObjectId,
    ServiceError,
>)
    ensures
        r == authenticate_spec(header_view(authorization), secret_of(*config), now),
{
    let header = match authorization {
        Some(h) => h,
        None => {
            return Err(ServiceError::Unauthorized);
        },
    };
    let token = match bearer(header) {
        Some(t) => t,
        None => {
            return Err(ServiceError::Unauthorized);
        },
    };
    let subject = match decode_token_at(token, config.jwt_secret.as_str().as_bytes(), now) {
        Ok(s) => s,
        Err(_) => {
            return Err(ServiceError::Unauthorized);
        },
    };
    match ObjectId::parse_str(subject.as_str()) {
        Some(id) => Ok(id),
        None => Err(ServiceError::Unauthorized),
    }
}

} // verus!
