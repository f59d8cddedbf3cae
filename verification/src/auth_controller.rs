//! Registration, login and the refreshing of tokens.

use vstd::prelude::*;
use crate::config::Config;
use crate::db::{has_email, first_with_email, has_user, Database};
use crate::dtos::{LoginUserDto, RefreshTokenDto, RegisterUserDto, RegisterUserResponse};
use crate::error::{ServiceError, TokenError};
use crate::ident::{fresh_id, parse_spec, ObjectId};
use crate::keys::{
    attach_keys, generated, new_pair, read_stored, KeyPair, PrivateKeyStore, KEY_BITS,
};
use crate::models::User;
use crate::password;
use crate::password::{hash_spec, matches_hash, refusal};
use crate::share::{map_password_error, password_failure};
use crate::token::{
    decode_token_at, issue_pair, pair_spec, valid_until, verify_spec, TokenPair,
};

verus! {

/// The status of an answer that carries tokens.
pub const STATUS_CREATED: i32 = 201;

/// The failure that stands for a token that was not issued or not accepted:
/// a token that is not accepted leaves the caller unauthorized, all else is a
/// failure of the signing.
pub open spec fn token_failure(e: TokenError) -> ServiceError {
    match e {
        TokenError::InvalidToken => ServiceError::Unauthorized,
        _ => ServiceError::Crypto,
    }
}

/// The failure that stands for a token that was not issued or not accepted.
pub fn map_token_error(e: TokenError) -> (r: ServiceError)
    ensures
        r == token_failure(e),
{
    match e {
        TokenError::InvalidToken => ServiceError::Unauthorized,
        _ => ServiceError::Crypto,
    }
}

/// The bytes of the secret that tokens are signed with.
pub open spec fn secret_of(config: Config) -> Seq<u8> {
    vstd::utf8::encode_utf8(config.jwt_secret@)
}

/// The view of an outcome that holds a pair of tokens.
pub open spec fn outcome_view(r: Result<TokenPair, ServiceError>) -> Result<
    (Seq<char>, Seq<char>),
    ServiceError,
> {
    match r {
        Ok(p) => Ok((p.access_token@, p.refresh_token@)),
        Err(e) => Err(e),
    }
}

/// The tokens that are issued at `now` to the subject `user_id`, or the
/// failure to issue them.
pub open spec fn tokens_for(user_id: Seq<char>, config: Config, now: i64) -> Result<
    (Seq<char>, Seq<char>),
    ServiceError,
> {
    match pair_spec(
        user_id,
        secret_of(config),
        config.access_token_maxage,
        config.refresh_token_maxage,
        now,
    ) {
        Ok(p) => Ok(p),
        Err(e) => Err(token_failure(e)),
    }
}

fn tokens(user_id: &str, config: &Config, now: i64) -> (r: Result<TokenPair, ServiceError>)
    ensures
        outcome_view(r) == tokens_for(user_id@, *config, now),
        r matches Ok(p) ==> pair_valid(p, *config, user_id@, now),
{
    match issue_pair(
        user_id,
        config.jwt_secret.as_str().as_bytes(),
        config.access_token_maxage,
        config.refresh_token_maxage,
        now,
    ) {
        Ok(p) => Ok(p),
        Err(e) => Err(map_token_error(e)),
    }
}

/// Whether both tokens of a pair name the subject `user_id` and are accepted
/// from their issue at `now` until their time to live has passed.
pub open spec fn pair_valid(pair: TokenPair, config: Config, user_id: Seq<char>, now: i64) -> bool {
    &&& valid_until(
        pair.access_token@,
        secret_of(config),
        user_id,
        now + config.access_token_maxage,
    )
    &&& valid_until(
        pair.refresh_token@,
        secret_of(config),
        user_id,
        now + config.refresh_token_maxage,
    )
}

/// Why a registration is refused before anything is drawn at random, if it
/// is: the email address is taken, or the password is not one that is hashed.
pub open spec fn registration_refusal(users: Seq<User>, body: RegisterUserDto) -> Option<
    ServiceError,
> {
    if has_email(users, body.email@) {
        Some(ServiceError::Conflict)
    } else {
        match refusal(body.password@) {
            Some(e) => Some(password_failure(e)),
            None => None,
        }
    }
}

/// Whether `after` is `before` and one more user `id`, made at `now` of what
/// a registration gave, whose password's hash accepts the password given. The
/// user's public key is either still missing or one that can be read.
pub open spec fn user_registered(
    before: Seq<User>,
    after: Seq<User>,
    id: ObjectId,
    body: RegisterUserDto,
    now: i64,
) -> bool {
    let u = after.last()@;
    &&& after.len() == before.len() + 1
    &&& !has_user(before, id)
    &&& forall|i: int| 0 <= i < before.len() ==> after[i]@ == (#[trigger] before[i])@
    &&& u._id == id
    &&& u.username == body.name@
    &&& u.email == body.email@
    &&& matches_hash(body.password@, u.password)
    &&& u.created_at == now
    &&& u.updated_at == now
    &&& u.public_key.len() == 0 || read_stored(u.public_key) is Some
}

/// Whether `after` is `before` and the one more user `id` of a registration,
/// with the key pair of `KEY_BITS` bits that comes of `seed`: the private
/// half is what the private key store holds for the user, and the public
/// half is what the user's stored public key reads as.
pub open spec fn registered_with_keys(
    before: Seq<User>,
    after: Seq<User>,
    held: Option<Seq<char>>,
    id: ObjectId,
    seed: Seq<u8>,
    body: RegisterUserDto,
    now: i64,
) -> bool {
    &&& user_registered(before, after, id, body, now)
    &&& held is Some
    &&& read_stored(after.last().public_key@) is Some
    &&& generated(KEY_BITS, seed, held->0, read_stored(after.last().public_key@)->0)
}

/// What a registration draws at random: the salt of the password's hash, the
/// identity of the user, and the key pair, which is missing where its
/// generation failed.
#[derive(Debug)]
pub struct Fresh {
    pub salt: String,
    pub id: ObjectId,
    pub key_pair: Option<KeyPair>,
}

/// How far a registration with the drawn values gets: it is refused and
/// stores nothing, it stores the user and fails on the keys, or it stores the
/// user with keys and issues tokens, which may fail in turn.
pub open spec fn registration_stores(users: Seq<User>, body: RegisterUserDto, fresh: Fresh) -> bool {
    &&& registration_refusal(users, body) is None
    &&& hash_spec(body.password@, fresh.salt@) is Ok
    &&& !has_user(users, fresh.id)
}

/// What `register_user_with` returns.
pub open spec fn registration_spec(
    users: Seq<User>,
    body: RegisterUserDto,
    fresh: Fresh,
    config: Config,
    now: i64,
) -> Result<(Seq<char>, Seq<char>), ServiceError> {
    match registration_refusal(users, body) {
        Some(e) => Err(e),
        None => match hash_spec(body.password@, fresh.salt@) {
            Err(e) => Err(password_failure(e)),
            Ok(_) => if has_user(users, fresh.id) {
                Err(ServiceError::Conflict)
            } else if fresh.key_pair is None {
                Err(ServiceError::Crypto)
            } else {
                tokens_for(fresh.id.hex(), config, now)
            },
        },
    }
}

/// Registers a user with the values that were drawn for the registration.
/// See `registration_spec` for the outcome. A stored user stays stored where
/// the keys or the tokens fail afterwards, then possibly without keys.
pub fn register_user_with(
    body: RegisterUserDto,
    db: &mut Database,
    keys: &mut PrivateKeyStore,
    config: &Config,
    now: i64,
    fresh: Fresh,
) -> (r: Result<TokenPair, ServiceError>)
    requires
        old(db).wf(),
    ensures
        final(db).wf(),
        final(db).shares() == old(db).shares(),
        outcome_view(r) == registration_spec(old(db).users(), body, fresh, *config, now),
        r matches Ok(pair) ==> pair_valid(pair, *config, fresh.id.hex(), now),
        if registration_stores(old(db).users(), body, fresh) {
            &&& user_registered(old(db).users(), final(db).users(), fresh.id, body, now)
            &&& final(db).users().last().password@ == hash_spec(
                body.password@,
                fresh.salt@,
            )->Ok_0
            &&& match fresh.key_pair {
                Some(pair) => read_stored(final(db).users().last().public_key@) == Some(
                    pair.public_pem@,
                ) && final(keys).entries() == old(keys).entries().push(
                    (fresh.id, pair.private_pem),
                ) && final(keys).key(fresh.id) == Some(pair.private_pem@),
                None => final(db).users().last().public_key@.len() == 0 && final(keys).entries() == old(keys).entries(),
            }
        } else {
            final(db).users() == old(db).users() && final(keys).entries() == old(keys).entries()
        },
{
    if db.get_user(body.email.as_str()).is_ok() {
        return Err(ServiceError::Conflict);
    }
    let Fresh { salt, id, key_pair } = fresh;
    let hashed = match password::hash_with_salt(body.password.as_str(), salt.as_str()) {
        Ok(h) => h,
        Err(e) => {
            return Err(map_password_error(e));
        },
    };
    let RegisterUserDto { name, email, password: _, password_confirm: _ } = body;
    match db.create_user_with_id(id, name, email, hashed, now) {
        Ok(_) => {},
        Err(e) => {
            return Err(e);
        },
    }
    let ghost created = db.users();
    proof {
        assert(created.drop_last() == old(db).users());
        assert forall|i: int| 0 <= i < old(db).users().len() implies created[i] == old(
            db,
        ).users()[i] by {
            assert(created.drop_last()[i] == created[i]);
        }
        assert(user_registered(old(db).users(), created, id, body, now));
    }
    let KeyPair { private_pem, public_pem } = match key_pair {
        Some(pair) => pair,
        None => {
            return Err(ServiceError::Crypto);
        },
    };
    attach_keys(db, keys, id, private_pem, public_pem.as_str());
    proof {
        assert(db.users().last()._id == created.last()._id);
        assert(user_registered(old(db).users(), db.users(), id, body, now));
    }
    let subject = id.to_hex();
    tokens(subject.as_str(), config, now)
}

/// Registers a user: stores the record with the password's hash, attaches a
/// new key pair, and issues tokens for the new identity.
///
/// An email address that is taken gives `Conflict`, and a password that is
/// empty or longer than 64 bytes is refused as invalid input; in both cases
/// nothing changes. Beyond that the salt, the identity and the keys are
/// drawn afresh, so what is stated holds whichever came: on success the user
/// is stored with the public half of a new key pair of `KEY_BITS` bits on
/// the record, the private half is in the private key store, and the tokens
/// name the new identity. A failure is `Crypto` or `Conflict`
/// and leaves either nothing changed or the user stored: where the keys or
/// the tokens fail, the stored user stays, possibly without keys.
pub fn register_user(
    body: RegisterUserDto,
    db: &mut Database,
    keys: &mut PrivateKeyStore,
    config: &Config,
    now: i64,
) -> (r: Result<TokenPair, ServiceError>)
    requires
        old(db).wf(),
    ensures
        final(db).wf(),
        final(db).shares() == old(db).shares(),
        registration_refusal(old(db).users(), body) matches Some(e) ==> r.is_err() && r->Err_0
            == e && final(db).users() == old(db).users() && final(keys).entries() == old(
            keys,
        ).entries(),
        registration_refusal(old(db).users(), body) is None ==> match r {
            Ok(pair) => exists|id: ObjectId, seed: Seq<u8>| #[trigger]
                registered_with_keys(
                    old(db).users(),
                    final(db).users(),
                    final(keys).key(id),
                    id,
                    seed,
                    body,
                    now,
                ) && pair_valid(pair, *config, id.hex(), now),
            Err(e) => (e == ServiceError::Crypto || e == ServiceError::Conflict) && (final(db).users() == old(db).users() || exists|id: ObjectId| #[trigger]
                user_registered(old(db).users(), final(db).users(), id, body, now)),
        },
{
    if db.get_user(body.email.as_str()).is_ok() {
        return Err(ServiceError::Conflict);
    }
    if let Some(e) = password::check_length(body.password.as_str()) {
        return Err(map_password_error(e));
    }
    let salt = password::fresh_salt();
    let id = fresh_id();
    let key_pair = match new_pair(KEY_BITS) {
        Ok(pair) => Some(pair),
        Err(_) => None,
    };
    let fresh = Fresh { salt, id, key_pair };
    let r = register_user_with(body, db, keys, config, now, fresh);
    proof {
        if registration_stores(old(db).users(), body, fresh) {
            assert(user_registered(old(db).users(), db.users(), id, body, now));
        }
        if r is Ok {
            let pair = fresh.key_pair->0;
            let seed = choose|seed: Seq<u8>| #[trigger]
                generated(KEY_BITS, seed, pair.private_pem@, pair.public_pem@);
            assert(registered_with_keys(
                old(db).users(),
                db.users(),
                keys.key(id),
                id,
                seed,
                body,
                now,
            ));
        }
    }
    r
}

/// What a login returns: tokens for the first user with the email address
/// given, where the stored hash accepts the password. An unknown address, a
/// password that is not accepted and one that cannot be compared all leave
/// the caller unauthorized, and are not told apart.
pub open spec fn login_spec(
    users: Seq<User>,
    body: LoginUserDto,
    config: Config,
    now: i64,
    i: int,
) -> Result<(Seq<char>, Seq<char>), ServiceError> {
    if !has_email(users, body.email@) {
        Err(ServiceError::Unauthorized)
    } else if !matches_hash(body.password@, users[i].password@) {
        Err(ServiceError::Unauthorized)
    } else {
        tokens_for(users[i]._id.hex(), config, now)
    }
}

/// Logs a user in by email address and password, and issues tokens.
pub fn login_user(body: &LoginUserDto, db: &Database, config: &Config, now: i64) -> (r: Result<
    TokenPair,
    ServiceError,
>)
    ensures
        !has_email(db.users(), body.email@) ==> r.is_err() && r->Err_0
            == ServiceError::Unauthorized,
        forall|i: int|
            first_with_email(db.users(), body.email@, i) ==> outcome_view(r) == login_spec(
                db.users(),
                *body,
                *config,
                now,
                i,
            ),
        r matches Ok(pair) ==> exists|i: int|
            first_with_email(db.users(), body.email@, i) && pair_valid(
                pair,
                *config,
                (#[trigger] db.users()[i])._id.hex(),
                now,
            ),
{
    let user = match db.get_user(body.email.as_str()) {
        Ok(u) => u,
        Err(_) => {
            return Err(ServiceError::Unauthorized);
        },
    };
    match password::compare(body.password.as_str(), user.password.as_str()) {
        Ok(true) => {},
        _ => {
            return Err(ServiceError::Unauthorized);
        },
    }
    let subject = user._id.to_hex();
    tokens(subject.as_str(), config, now)
}

/// What a refresh returns: a new pair of tokens for the subject of the token
/// presented, where that token is accepted at `now` and its subject writes an
/// identity. No record is kept of tokens that were presented before: a
/// refresh token stays good until its own expiry.
pub open spec fn refresh_spec(body: RefreshTokenDto, config: Config, now: i64) -> Result<
    (Seq<char>, Seq<char>),
    ServiceError,
> {
    match verify_spec(body.refresh_token@, secret_of(config), now) {
        Err(_) => Err(ServiceError::Unauthorized),
        Ok(subject) => match parse_spec(subject) {
            None => Err(ServiceError::Unauthorized),
            Some(id) => tokens_for(id.hex(), config, now),
        },
    }
}

/// Issues a new pair of tokens to the holder of a refresh token.
pub fn refresh_tokens(body: &RefreshTokenDto, config: &Config, now: i64) -> (r: Result<
    TokenPair,
    ServiceError,
>)
    ensures
        outcome_view(r) == refresh_spec(*body, *config, now),
{
    let subject = match decode_token_at(
        body.refresh_token.as_str(),
        config.jwt_secret.as_str().as_bytes(),
        now,
    ) {
        Ok(s) => s,
        Err(_) => {
            return Err(ServiceError::Unauthorized);
        },
    };
    let id = match ObjectId::parse_str(subject.as_str()) {
        Some(id) => id,
        None => {
            return Err(ServiceError::Unauthorized);
        },
    };
    let subject = id.to_hex();
    tokens(subject.as_str(), config, now)
}

/// The answer that stands for an outcome: the tokens with the status 201 and
/// the message given, or a failure's status and text without tokens.
pub fn respond(outcome: Result<TokenPair, ServiceError>, success: &str) -> (r:
    RegisterUserResponse)
    ensures
        match outcome {
            Ok(pair) => r.status_code == STATUS_CREATED && r.message@ == success@
                && r.access_token == Some(pair.access_token) && r.refresh_token == Some(
                pair.refresh_token,
            ),
            Err(e) => r.status_code == e.status() && r.message@ == e.text() && r.access_token
                is None && r.refresh_token is None,
        },
{
    match outcome {
        Ok(pair) => RegisterUserResponse {
            status_code: STATUS_CREATED,
            message: success.to_owned(),
            access_token: Some(pair.access_token),
            refresh_token: Some(pair.refresh_token),
        },
        Err(e) => RegisterUserResponse {
            status_code: e.status_code(),
            message: e.message().to_owned(),
            access_token: None,
            refresh_token: None,
        },
    }
}

/// Whether `r` answers `outcome` with the message `success`.
pub open spec fn answers(
    r: RegisterUserResponse,
    outcome: Result<(Seq<char>, Seq<char>), ServiceError>,
    success: Seq<char>,
) -> bool {
    match outcome {
        Ok(pair) => r.status_code == STATUS_CREATED && r.message@ == success && r.access_token
            is Some && r.access_token->0@ == pair.0 && r.refresh_token is Some
            && r.refresh_token->0@ == pair.1,
        Err(e) => r.status_code == e.status() && r.message@ == e.text() && r.access_token is None
            && r.refresh_token is None,
    }
}

/// Registers a user and answers with tokens or with the failure. See
/// `register_user` for what is stored.
pub fn register(
    body: RegisterUserDto,
    db: &mut Database,
    keys: &mut PrivateKeyStore,
    config: &Config,
    now: i64,
) -> (r: RegisterUserResponse)
    requires
        old(db).wf(),
    ensures
        final(db).wf(),
        final(db).shares() == old(db).shares(),
        registration_refusal(old(db).users(), body) matches Some(e) ==> answers(
            r,
            Err(e),
            "Registration successful"@,
        ) && final(db).users() == old(db).users() && final(keys).entries() == old(keys).entries(),
        registration_refusal(old(db).users(), body) is None ==> if r.status_code
            == STATUS_CREATED {
            exists|id: ObjectId| #[trigger]
                user_registered(old(db).users(), final(db).users(), id, body, now)
                    && final(keys).key(id) is Some && r.access_token is Some
                    && r.refresh_token is Some && valid_until(
                    r.access_token->0@,
                    secret_of(*config),
                    id.hex(),
                    now + config.access_token_maxage,
                ) && valid_until(
                    r.refresh_token->0@,
                    secret_of(*config),
                    id.hex(),
                    now + config.refresh_token_maxage,
                )
        } else {
            r.access_token is None && r.refresh_token is None && (r.status_code
                == ServiceError::Crypto.status() || r.status_code
                == ServiceError::Conflict.status())
        },
{
    let outcome = register_user(body, db, keys, config, now);
    respond(outcome, "Registration successful")
}

/// Logs a user in and answers with tokens or with the failure.
pub fn login(body: &LoginUserDto, db: &Database, config: &Config, now: i64) -> (r:
    RegisterUserResponse)
    ensures
        !has_email(db.users(), body.email@) ==> answers(
            r,
            Err(ServiceError::Unauthorized),
            "Login successful"@,
        ),
        forall|i: int|
            first_with_email(db.users(), body.email@, i) ==> answers(
                r,
                login_spec(db.users(), *body, *config, now, i),
                "Login successful"@,
            ),
{
    let outcome = login_user(body, db, config, now);
    respond(outcome, "Login successful")
}

/// Refreshes a pair of tokens and answers with the new pair or with the
/// failure.
pub fn refresh(body: &RefreshTokenDto, config: &Config, now: i64) -> (r: RegisterUserResponse)
    ensures
        answers(r, refresh_spec(*body, *config, now), "Token refreshed successfully"@),
{
    let outcome = refresh_tokens(body, config, now);
    respond(outcome, "Token refreshed successfully")
}

} // verus!
