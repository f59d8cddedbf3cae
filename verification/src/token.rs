//! Bearer tokens: signed claims that name a subject and an expiry.
//!
//! Access and refresh tokens are made by one and the same signing path and
//! differ in their time to live only: no claim tells them apart, so a refresh
//! token is accepted wherever an access token is.

use vstd::prelude::*;
use crate::clock;
use crate::error::TokenError;

verus! {

/// The error of `jsonwebtoken`, carried through and never looked into.
#[verifier::external_type_specification]
#[verifier::external_body]
pub struct ExJwtError(jsonwebtoken::errors::Error);

/// The compact JWT that HS256 signs under `secret` over the claims `sub`,
/// `iat` and `exp`, or `None` where the signer fails.
pub uninterp spec fn jwt_signed(sub: Seq<char>, iat: i64, exp: i64, secret: Seq<u8>) -> Option<
    Seq<char>,
>;

/// The claims `sub` and `exp` of a compact JWT whose HS256 signature under
/// `secret` checks and which carries an expiry, each as far as it is present
/// with the expected type; `None` where the token is malformed, signed
/// otherwise, or carries no expiry. The expiry is not compared with any time.
pub uninterp spec fn jwt_claims(token: Seq<char>, secret: Seq<u8>) -> Option<
    (Option<Seq<char>>, Option<i64>),
>;

/// `jsonwebtoken::encode` with the default header (HS256) over a JSON object of
/// the three claims, for an expiry that is not negative. The result is the
/// function of claims and secret that `jwt_signed` names. A token that comes
/// out decodes, under the same secret, to the subject and the expiry it was
/// made from.
#[verifier::external_body]
fn jwt_encode(sub: &str, iat: i64, exp: i64, secret: &[u8]) -> (r: Result<
    String,
    jsonwebtoken::errors::Error,
>)
    requires
        exp >= 0,
    ensures
        match r {
            Ok(t) => jwt_signed(sub@, iat, exp, secret@) == Some(t@) && jwt_claims(t@, secret@)
                == Some((Some(sub@), Some(exp))),
            Err(_) => jwt_signed(sub@, iat, exp, secret@) is None,
        },
{
    let mut claims = serde_json::Map::new();
    claims.insert("sub".to_string(), serde_json::Value::from(sub));
    claims.insert("iat".to_string(), serde_json::Value::from(iat));
    claims.insert("exp".to_string(), serde_json::Value::from(exp));
    jsonwebtoken::encode(
        &jsonwebtoken::Header::default(),
        &claims,
        &jsonwebtoken::EncodingKey::from_secret(secret),
    )
}

/// `jsonwebtoken::decode` for HS256 with the check of the expiry against the
/// system's clock switched off, into a JSON value of which the claims `sub`
/// (a string) and `exp` (an integer) are handed out. With the clock out of
/// it, the result is the function of token and secret that `jwt_claims`
/// names.
#[verifier::external_body]
fn jwt_decode(token: &str, secret: &[u8]) -> (r: Result<
    (Option<String>, Option<i64>),
    jsonwebtoken::errors::Error,
>)
    ensures
        match r {
            Ok(c) => jwt_claims(token@, secret@) == Some(
                (
                    match c.0 {
                        Some(s) => Some(s@),
                        None => None,
                    },
                    c.1,
                ),
            ),
            Err(_) => jwt_claims(token@, secret@) is None,
        },
{
    let mut validation = jsonwebtoken::Validation::new(jsonwebtoken::Algorithm::HS256);
    validation.validate_exp = false;
    let key = jsonwebtoken::DecodingKey::from_secret(secret);
    let data = jsonwebtoken::decode::<serde_json::Value>(token, &key, &validation)?;
    let sub = data.claims.get("sub").and_then(|v| v.as_str()).map(|s| s.to_string());
    let exp = data.claims.get("exp").and_then(|v| v.as_i64());
    Ok((sub, exp))
}

/// The expiry of a token issued at `now` to live for `ttl` seconds, where it
/// fits the claim: a number of seconds from zero to the largest `i64`.
pub open spec fn expiry(now: i64, ttl: i64) -> Option<i64> {
    if 0 <= now + ttl <= i64::MAX {
        Some((now + ttl) as i64)
    } else {
        None
    }
}

/// What `create_token_at` returns.
pub open spec fn issue_spec(user_id: Seq<char>, secret: Seq<u8>, ttl: i64, now: i64) -> Result<
    Seq<char>,
    TokenError,
> {
    if user_id.len() == 0 {
        Err(TokenError::EmptySubject)
    } else {
        match expiry(now, ttl) {
            None => Err(TokenError::ExpiryOutOfRange),
            Some(exp) => match jwt_signed(user_id, now, exp, secret) {
                Some(t) => Ok(t),
                None => Err(TokenError::Signing),
            },
        }
    }
}

/// What `decode_token_at` returns: the subject of a token that checks under
/// `secret`, names a subject, and expires at `now` or later.
pub open spec fn verify_spec(token: Seq<char>, secret: Seq<u8>, now: i64) -> Result<
    Seq<char>,
    TokenError,
> {
    match jwt_claims(token, secret) {
        Some((Some(sub), Some(exp))) => if exp >= now {
            Ok(sub)
        } else {
            Err(TokenError::InvalidToken)
        },
        _ => Err(TokenError::InvalidToken),
    }
}

/// The view of a result that holds text.
pub open spec fn text_view(r: Result<String, TokenError>) -> Result<Seq<char>, TokenError> {
    match r {
        Ok(s) => Ok(s@),
        Err(e) => Err(e),
    }
}

/// Issues at `now` a token for the subject `user_id` that expires
/// `expires_in_seconds` later. A token that comes out is then accepted under
/// the same secret at every time up to its expiry, and at no later time.
pub fn create_token_at(user_id: &str, secret: &[u8], expires_in_seconds: i64, now: i64) -> (r:
    Result<String, TokenError>)
    ensures
        text_view(r) == issue_spec(user_id@, secret@, expires_in_seconds, now),
        r matches Ok(t) ==> valid_until(t@, secret@, user_id@, now + expires_in_seconds),
{
    if user_id.is_empty() {
        return Err(TokenError::EmptySubject);
    }
    let exp = match now.checked_add(expires_in_seconds) {
        Some(e) => e,
        None => {
            return Err(TokenError::ExpiryOutOfRange);
        },
    };
    if exp < 0 {
        return Err(TokenError::ExpiryOutOfRange);
    }
    match jwt_encode(user_id, now, exp, secret) {
        Ok(t) => Ok(t),
        Err(_) => Err(TokenError::Signing),
    }
}

/// Checks a token at `now` and returns its subject. A malformed token, a bad
/// signature, a missing claim and an expiry before `now` all give
/// `InvalidToken`.
pub fn decode_token_at(token: &str, secret: &[u8], now: i64) -> (r: Result<String, TokenError>)
    ensures
        text_view(r) == verify_spec(token@, secret@, now),
{
    match jwt_decode(token, secret) {
        Ok((Some(sub), Some(exp))) => {
            if exp >= now {
                Ok(sub)
            } else {
                Err(TokenError::InvalidToken)
            }
        },
        _ => Err(TokenError::InvalidToken),
    }
}

/// An access token and a refresh token for one subject.
#[derive(Debug)]
pub struct TokenPair {
    pub access_token: String,
    pub refresh_token: String,
}

/// What `issue_pair` returns: the two tokens, or the failure of the first of
/// them that fails, the access token before the refresh token.
pub open spec fn pair_spec(
    user_id: Seq<char>,
    secret: Seq<u8>,
    access_ttl: i64,
    refresh_ttl: i64,
    now: i64,
) -> Result<(Seq<char>, Seq<char>), TokenError> {
    match issue_spec(user_id, secret, access_ttl, now) {
        Err(e) => Err(e),
        Ok(access) => match issue_spec(user_id, secret, refresh_ttl, now) {
            Err(e) => Err(e),
            Ok(refresh) => Ok((access, refresh)),
        },
    }
}

/// The view of a result that holds a pair of tokens.
pub open spec fn pair_view(r: Result<TokenPair, TokenError>) -> Result<
    (Seq<char>, Seq<char>),
    TokenError,
> {
    match r {
        Ok(p) => Ok((p.access_token@, p.refresh_token@)),
        Err(e) => Err(e),
    }
}

/// Whether a token names the subject `user_id` and is accepted under `secret`
/// at every time up to `until`, and at no later time.
pub open spec fn valid_until(token: Seq<char>, secret: Seq<u8>, user_id: Seq<char>, until: int)
    -> bool {
    forall|at: i64|
        #[trigger] verify_spec(token, secret, at) == if at <= until {
            Ok::<Seq<char>, TokenError>(user_id)
        } else {
            Err::<Seq<char>, TokenError>(TokenError::InvalidToken)
        }
}

/// Issues at `now` an access token and a refresh token for the subject
/// `user_id`. The two are made alike and differ in their time to live only.
pub fn issue_pair(user_id: &str, secret: &[u8], access_ttl: i64, refresh_ttl: i64, now: i64) -> (r:
    Result<TokenPair, TokenError>)
    ensures
        pair_view(r) == pair_spec(user_id@, secret@, access_ttl, refresh_ttl, now),
        r matches Ok(p) ==> valid_until(p.access_token@, secret@, user_id@, now + access_ttl)
            && valid_until(p.refresh_token@, secret@, user_id@, now + refresh_ttl),
{
    let access_token = match create_token_at(user_id, secret, access_ttl, now) {
        Ok(t) => t,
        Err(e) => {
            return Err(e);
        },
    };
    let refresh_token = match create_token_at(user_id, secret, refresh_ttl, now) {
        Ok(t) => t,
        Err(e) => {
            return Err(e);
        },
    };
    Ok(TokenPair { access_token, refresh_token })
}

/// Issues a token at the current time.
pub fn create_token(user_id: &str, secret: &[u8], expires_in_seconds: i64) -> (r: Result<
    String,
    TokenError,
>)
    ensures
        exists|now: i64| text_view(r) == #[trigger] issue_spec(
            user_id@,
            secret@,
            expires_in_seconds,
            now,
        ),
{
    let now = clock::utc_timestamp();
    let r = create_token_at(user_id, secret, expires_in_seconds, now);
    assert(text_view(r) == issue_spec(user_id@, secret@, expires_in_seconds, now));
    r
}

/// Checks a token at the current time and returns its subject.
pub fn decode_token(token: &str, secret: &[u8]) -> (r: Result<String, TokenError>)
    ensures
        exists|now: i64| text_view(r) == #[trigger] verify_spec(token@, secret@, now),
{
    let now = clock::utc_timestamp();
    let r = decode_token_at(token, secret, now);
    assert(text_view(r) == verify_spec(token@, secret@, now));
    r
}

} // verus!
