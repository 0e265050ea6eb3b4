//! The identity extractor: from the credential header of a request to the
//! user who sent it. Every failure here ends the request as unauthorized.

use crate::failure::Failure;
use crate::ident::ResourceId;
use crate::text::{has_char, starts_with};
use crate::token::{unix_now, verify_at, verify_outcome, TokenError};
use vstd::prelude::*;
use vstd::string::*;

verus! {

/// The credential header of a request, as the transport delivers it.
#[derive(Debug, Clone, PartialEq, Eq)]
pub enum Credential {
    /// The request has no credential header.
    Missing,
    /// The header is there, but its value is not text.
    Unreadable,
    /// The text of the header.
    Text(String),
}

/// The header starts with the scheme `Bearer` and the space that ends it.
pub open spec fn has_bearer_scheme(header: Seq<char>) -> bool {
    "Bearer "@.is_prefix_of(header)
}

/// What follows the scheme and its space.
pub open spec fn bearer_token(header: Seq<char>) -> Seq<char> {
    header.subrange(7, header.len() as int)
}

/// The failure that a rejected token ends the request with.
pub open spec fn token_failure(e: TokenError) -> Failure {
    match e {
        TokenError::InvalidToken => Failure::InvalidToken,
        TokenError::InvalidSubject => Failure::InvalidTokenSubject,
        TokenError::SigningError => Failure::TokenGeneration,
    }
}

/// The user that a credential names at the time `now`, or the failure that
/// ends the request. A header of the shape `<scheme> <token>` has a space;
/// the scheme is what stands before the first one.
pub open spec fn authentication(credential: Credential, secret: Seq<char>, now: u64) -> Result<
    ResourceId,
    Failure,
> {
    match credential {
        Credential::Missing => Err(Failure::MissingCredential),
        Credential::Unreadable => Err(Failure::MalformedCredential),
        Credential::Text(header) => if !header@.contains(' ') {
            Err(Failure::MalformedCredential)
        } else if !has_bearer_scheme(header@) {
            Err(Failure::WrongScheme)
        } else {
            match verify_outcome(bearer_token(header@), secret, now) {
                Ok(id) => Ok(id),
                Err(e) => Err(token_failure(e)),
            }
        },
    }
}

/// In a header with the bearer scheme, the first space is the one that ends
/// the scheme: what stands before it is `Bearer`.
pub proof fn lemma_bearer_scheme(header: Seq<char>)
    requires
        has_bearer_scheme(header),
    ensures
        header.contains(' '),
        header[6] == ' ',
        forall|i: int| 0 <= i < 6 ==> header[i] != ' ',
        header.subrange(0, 6) == "Bearer"@,
        header == "Bearer "@ + bearer_token(header),
{
    reveal_strlit("Bearer ");
    reveal_strlit("Bearer");
    let p = header.subrange(0, 7);
    assert forall|i: int| 0 <= i < 7 implies header[i] == "Bearer "@[i] by {
        assert(p[i] == header[i]);
    }
    assert(header[6] == ' ');
    assert(header.subrange(0, 6) =~= "Bearer"@);
    assert(header =~= "Bearer "@ + bearer_token(header));
}

/// A credential that names a user at some time names the same user at every
/// earlier time, and a failure at the epoch stays a failure later: the same
/// one, or an invalid token once the expiry has passed.
pub proof fn lemma_authentication_ages(credential: Credential, secret: Seq<char>, now: u64)
    ensures
        authentication(credential, secret, now) matches Ok(id) ==> authentication(
            credential,
            secret,
            0,
        ) == Ok::<ResourceId, Failure>(id),
        authentication(credential, secret, 0) matches Err(f) ==> authentication(
            credential,
            secret,
            now,
        ) matches Err(g) && (g == f || g == Failure::InvalidToken),
{
}

/// The failure that a rejected token ends the request with.
pub fn failure_of(e: TokenError) -> (f: Failure)
    ensures
        f == token_failure(e),
{
    match e {
        TokenError::InvalidToken => Failure::InvalidToken,
        TokenError::InvalidSubject => Failure::InvalidTokenSubject,
        TokenError::SigningError => Failure::TokenGeneration,
    }
}

/// The user that `credential` names at the time `now`.
pub fn require_user_id_at(credential: &Credential, jwt_secret: &str, now: u64) -> (r: Result<
    ResourceId,
    Failure,
>)
    ensures
        r == authentication(*credential, jwt_secret@, now),
{
    match credential {
        Credential::Missing => Err(Failure::MissingCredential),
        Credential::Unreadable => Err(Failure::MalformedCredential),
        Credential::Text(header) => {
            let text = header.as_str();
            if !has_char(text, ' ') {
                return Err(Failure::MalformedCredential);
            }
            if !starts_with(text, "Bearer ") {
                return Err(Failure::WrongScheme);
            }
            proof {
                reveal_strlit("Bearer ");
            }
            let token = text.substring_char(7, text.unicode_len());
            match verify_at(token, jwt_secret, now) {
                Ok(id) => Ok(id),
                Err(e) => Err(failure_of(e)),
            }
        },
    }
}

/// The user that `credential` names at the time the clock shows. Whatever
/// the clock shows, the outcome is that of judging the credential at some
/// time: a header that is missing, unreadable, without a space or of
/// another scheme ends the request with its own failure; a user that comes
/// out is the one that the credential names at the epoch; and a credential
/// that fails at the epoch fails here, in the same way or as an invalid
/// token.
pub fn require_user_id(credential: &Credential, jwt_secret: &str) -> (r: Result<
    ResourceId,
    Failure,
>)
    ensures
        (exists|now: u64| r == #[trigger] authentication(*credential, jwt_secret@, now)),
        r matches Ok(id) ==> authentication(*credential, jwt_secret@, 0) == Ok::<
            ResourceId,
            Failure,
        >(id),
        authentication(*credential, jwt_secret@, 0) matches Err(f) ==> r matches Err(g) && (g == f
            || g == Failure::InvalidToken),
{
    let now = unix_now();
    proof {
        lemma_authentication_ages(*credential, jwt_secret@, now);
    }
    require_user_id_at(credential, jwt_secret, now)
}

} // verus!
