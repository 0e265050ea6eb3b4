//! Identity tokens: signed claims that name a user and expire a day after
//! they were issued. There is no refresh and no revocation.

use crate::ident::{id_text, lemma_text_round_trip, parse_id, ResourceId};
use vstd::prelude::*;

verus! {

/// How long a token is valid, in seconds: twenty-four hours.
pub const TOKEN_LIFETIME_SECS: u64 = 86400;

/// What a token asserts.
#[derive(Debug, Clone, PartialEq, Eq)]
pub struct Claims {
    /// The user, as the text of an identifier.
    pub sub: String,
    /// The last second, counted from the epoch, at which the token is valid.
    pub exp: u64,
}

/// Why a token was not issued or not accepted.
#[derive(Clone, Copy, Debug, PartialEq, Eq, Structural)]
pub enum TokenError {
    /// Signing failed.
    SigningError,
    /// The token is malformed, its signature does not match, or it has expired.
    InvalidToken,
    /// The subject of the token is not an identifier.
    InvalidSubject,
}

/// `jsonwebtoken::errors::Error`, carried from signing to the function that
/// judges its outcome; nothing is known of what is inside.
#[verifier::external_type_specification]
#[verifier::external_body]
pub struct ExJwtError(jsonwebtoken::errors::Error);

/// The token that signing the claims `sub` and `exp` with `secret` gives,
/// or `None` where signing fails.
pub uninterp spec fn spec_jwt_encode(sub: Seq<char>, exp: u64, secret: Seq<char>) -> Option<
    Seq<char>,
>;

/// The subject and expiry that `token` carries if it is well formed and
/// signed with `secret`, whatever the time; `None` otherwise.
pub uninterp spec fn spec_jwt_decode(token: Seq<char>, secret: Seq<char>) -> Option<
    (Seq<char>, u64),
>;

/// `jsonwebtoken::encode` with the default header (HS256) on the claims
/// `sub` and `exp`, keyed by `EncodingKey::from_secret`. The result is a
/// function of the arguments, and a token that comes out decodes, under the
/// same secret, to the claims that went in.
#[verifier::external_body]
fn jwt_encode(sub: &str, exp: u64, secret: &str) -> (r: Result<
    String,
    jsonwebtoken::errors::Error,
>)
    ensures
        r matches Ok(t) ==> spec_jwt_encode(sub@, exp, secret@) == Some(t@),
        r is Err ==> spec_jwt_encode(sub@, exp, secret@) is None,
        r matches Ok(t) ==> spec_jwt_decode(t@, secret@) == Some((sub@, exp)),
{
    let mut claims = serde_json::Map::new();
    claims.insert("sub".to_string(), serde_json::Value::from(sub));
    claims.insert("exp".to_string(), serde_json::Value::from(exp));
    let key = jsonwebtoken::EncodingKey::from_secret(secret.as_bytes());
    jsonwebtoken::encode(&jsonwebtoken::Header::default(), &claims, &key)
}

/// `jsonwebtoken::decode` under the default validation (HS256, `exp`
/// required) with the check of `exp` against the clock switched off, keyed
/// by `DecodingKey::from_secret`; then the claims `sub`, a string, and
/// `exp`, an unsigned integer. The result is a function of the arguments.
#[verifier::external_body]
fn jwt_decode(token: &str, secret: &str) -> (r: Option<Claims>)
    ensures
        r matches Some(c) ==> spec_jwt_decode(token@, secret@) == Some((c.sub@, c.exp)),
        r is None ==> spec_jwt_decode(token@, secret@) is None,
{
    let key = jsonwebtoken::DecodingKey::from_secret(secret.as_bytes());
    let mut validation = jsonwebtoken::Validation::default();
    validation.validate_exp = false;
    let data = jsonwebtoken::decode::<serde_json::Value>(token, &key, &validation).ok()?;
    let sub = data.claims.get("sub")?.as_str()?.to_string();
    let exp = data.claims.get("exp")?.as_u64()?;
    Some(Claims { sub, exp })
}

/// `chrono::Utc::now().timestamp()`: the clock's seconds since the epoch.
/// Nothing is promised of the reading.
#[verifier::external_body]
fn clock_seconds() -> i64 {
    chrono::Utc::now().timestamp()
}

/// What verification makes of decoded claims at the time `now`: without
/// claims, or once the expiry has passed, the token is invalid; a subject
/// that is no identifier text is an invalid subject; else the user is the
/// identifier that the subject denotes.
pub open spec fn claims_outcome(claims: Option<(Seq<char>, u64)>, now: u64) -> Result<
    ResourceId,
    TokenError,
> {
    match claims {
        None => Err(TokenError::InvalidToken),
        Some((sub, exp)) => if exp < now {
            Err(TokenError::InvalidToken)
        } else {
            match parse_id(sub) {
                Some(id) => Ok(id),
                None => Err(TokenError::InvalidSubject),
            }
        },
    }
}

/// What verifying `token` under `secret` at the time `now` gives.
pub open spec fn verify_outcome(token: Seq<char>, secret: Seq<char>, now: u64) -> Result<
    ResourceId,
    TokenError,
> {
    claims_outcome(spec_jwt_decode(token, secret), now)
}

/// A token that carries a user and expires a day after it was issued
/// verifies to that user at every time up to its expiry, and is invalid at
/// every later time.
pub proof fn lemma_token_lifetime(
    token: Seq<char>,
    secret: Seq<char>,
    user: ResourceId,
    issued_at: u64,
    now: u64,
)
    requires
        issued_at + TOKEN_LIFETIME_SECS <= u64::MAX,
        spec_jwt_decode(token, secret) == Some(
            (id_text(user@), (issued_at + TOKEN_LIFETIME_SECS) as u64),
        ),
    ensures
        now - issued_at <= TOKEN_LIFETIME_SECS ==> verify_outcome(token, secret, now) == Ok::<
            ResourceId,
            TokenError,
        >(user),
        now - issued_at > TOKEN_LIFETIME_SECS ==> verify_outcome(token, secret, now) == Err::<
            ResourceId,
            TokenError,
        >(TokenError::InvalidToken),
{
    lemma_text_round_trip(user);
}

/// The claims as a pair of plain values.
pub open spec fn claims_view(claims: Option<Claims>) -> Option<(Seq<char>, u64)> {
    match claims {
        Some(c) => Some((c.sub@, c.exp)),
        None => None,
    }
}

/// The clock reading as seconds since the epoch; a reading before the
/// epoch counts as the epoch.
pub open spec fn seconds_since_epoch(reading: i64) -> u64 {
    if reading < 0 {
        0
    } else {
        reading as u64
    }
}

/// Turns a clock reading into seconds since the epoch.
pub fn epoch_seconds(reading: i64) -> (r: u64)
    ensures
        r == seconds_since_epoch(reading),
{
    if reading < 0 {
        0
    } else {
        reading as u64
    }
}

/// The current time in seconds since the epoch. Whatever the clock shows,
/// the result is its reading counted from the epoch, a reading before the
/// epoch counting as the epoch; so it is a time to which a day can be added.
pub fn unix_now() -> (now: u64)
    ensures
        (exists|reading: i64| now == #[trigger] seconds_since_epoch(reading)),
        now + TOKEN_LIFETIME_SECS <= u64::MAX,
{
    let reading = clock_seconds();
    epoch_seconds(reading)
}

/// Judges decoded claims at the time `now`.
pub fn verify_claims(claims: Option<Claims>, now: u64) -> (r: Result<ResourceId, TokenError>)
    ensures
        r == claims_outcome(claims_view(claims), now),
{
    match claims {
        None => Err(TokenError::InvalidToken),
        Some(c) => {
            if c.exp < now {
                return Err(TokenError::InvalidToken);
            }
            match ResourceId::parse_str(c.sub.as_str()) {
                Some(id) => Ok(id),
                None => Err(TokenError::InvalidSubject),
            }
        },
    }
}

/// Verifies `token` under `secret` at the time `now` and names the user.
pub fn verify_at(token: &str, secret: &str, now: u64) -> (r: Result<ResourceId, TokenError>)
    ensures
        r == verify_outcome(token@, secret@, now),
{
    verify_claims(jwt_decode(token, secret), now)
}

/// Verifies `token` under `secret` at the time the clock shows. Whatever the
/// clock shows, the outcome is that of verifying at some time: a token that
/// does not decode is invalid, and a user that comes out is the one that
/// the token's subject denotes.
pub fn verify(token: &str, secret: &str) -> (r: Result<ResourceId, TokenError>)
    ensures
        (exists|now: u64| r == #[trigger] verify_outcome(token@, secret@, now)),
        spec_jwt_decode(token@, secret@) is None ==> r == Err::<ResourceId, TokenError>(
            TokenError::InvalidToken,
        ),
        r matches Ok(id) ==> spec_jwt_decode(token@, secret@) matches Some((sub, _))
            && parse_id(sub) == Some(id),
        r matches Err(e) ==> e != TokenError::SigningError,
{
    verify_at(token, secret, unix_now())
}

/// Turns the outcome of signing into the outcome of issuing.
pub fn issued(signed: Result<String, jsonwebtoken::errors::Error>) -> (r: Result<
    String,
    TokenError,
>)
    ensures
        match signed {
            Ok(t) => r == Ok::<String, TokenError>(t),
            Err(_) => r == Err::<String, TokenError>(TokenError::SigningError),
        },
{
    match signed {
        Ok(t) => Ok(t),
        Err(_) => Err(TokenError::SigningError),
    }
}

/// The token that is issued for `user` at the time `now`: the signed form
/// of the user's identifier text and the expiry `now` plus a day. There is
/// none where that expiry cannot be counted or signing fails.
pub open spec fn issued_token(user: ResourceId, secret: Seq<char>, now: u64) -> Option<Seq<char>> {
    if now + TOKEN_LIFETIME_SECS > u64::MAX {
        None
    } else {
        spec_jwt_encode(id_text(user@), (now + TOKEN_LIFETIME_SECS) as u64, secret)
    }
}

/// Issues a token for `user_id` at the time `now`. A token that comes out
/// verifies to `user_id` at every time up to a day after `now` and is
/// invalid at every later time.
pub fn issue_token_at(user_id: ResourceId, jwt_secret: &str, now: u64) -> (r: Result<
    String,
    TokenError,
>)
    ensures
        match issued_token(user_id, jwt_secret@, now) {
            Some(t) => r matches Ok(token) && token@ == t,
            None => r == Err::<String, TokenError>(TokenError::SigningError),
        },
        r matches Ok(token) ==> spec_jwt_decode(token@, jwt_secret@) == Some(
            (id_text(user_id@), (now + TOKEN_LIFETIME_SECS) as u64),
        ),
        r matches Ok(token) ==> forall|at: u64|
            #[trigger] verify_outcome(token@, jwt_secret@, at) == if at <= now
                + TOKEN_LIFETIME_SECS {
                Ok::<ResourceId, TokenError>(user_id)
            } else {
                Err::<ResourceId, TokenError>(TokenError::InvalidToken)
            },
{
    if now > u64::MAX - TOKEN_LIFETIME_SECS {
        return Err(TokenError::SigningError);
    }
    let sub = user_id.to_hex();
    let exp = now + TOKEN_LIFETIME_SECS;
    let r = issued(jwt_encode(sub.as_str(), exp, jwt_secret));
    proof {
        if let Ok(token) = &r {
            assert forall|at: u64|
                #[trigger] verify_outcome(token@, jwt_secret@, at) == if at <= now
                    + TOKEN_LIFETIME_SECS {
                    Ok::<ResourceId, TokenError>(user_id)
                } else {
                    Err::<ResourceId, TokenError>(TokenError::InvalidToken)
                } by {
                lemma_token_lifetime(token@, jwt_secret@, user_id, now, at);
            }
        }
    }
    r
}

/// Issues a token for `user_id` at the time the clock shows. Whatever the
/// clock shows, the outcome is that of issuing at some time to which a day
/// can be added: the token issued for that time, or a signing error where
/// there is none. So signing is the only thing that fails, and a token that
/// comes out names `user_id` and expires a day or more after the epoch.
pub fn issue_token(user_id: ResourceId, jwt_secret: &str) -> (r: Result<String, TokenError>)
    ensures
        (exists|now: u64|
            now + TOKEN_LIFETIME_SECS <= u64::MAX && (match #[trigger] issued_token(
                user_id,
                jwt_secret@,
                now,
            ) {
                Some(t) => r matches Ok(token) && token@ == t,
                None => r == Err::<String, TokenError>(TokenError::SigningError),
            })),
        r matches Err(e) ==> e == TokenError::SigningError,
        r matches Ok(token) ==> spec_jwt_decode(token@, jwt_secret@) matches Some((sub, exp))
            && sub == id_text(user_id@) && exp >= TOKEN_LIFETIME_SECS,
{
    issue_token_at(user_id, jwt_secret, unix_now())
}

} // verus!
