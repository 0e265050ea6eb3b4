//! The decisions of signup, login and the caller's own profile. Signup and
//! login are the endpoints that need no identity.

use crate::auth::failure_of;
use crate::failure::Failure;
use crate::ident::ResourceId;
use crate::models::{shows_user, AuthOut, LoginIn, SignupIn, UserDb, UserOut};
use crate::storage::Lookup;
use crate::text::{is_blank, is_blank_str};
use crate::token::{issue_token_at, issued_token};
use crate::validate::{check_signup, signup_fault};
use vstd::prelude::*;

verus! {

/// `bcrypt::BcryptError`, carried from the calls below to the functions
/// that judge their outcome; nothing is known of what is inside.
#[verifier::external_type_specification]
#[verifier::external_body]
pub struct ExBcryptError(bcrypt::BcryptError);

/// Whether `password` is the password that `hash` was made from; `None`
/// where `hash` is no hash.
pub uninterp spec fn spec_password_matches(password: Seq<char>, hash: Seq<char>) -> Option<bool>;

/// `bcrypt::verify`: whether the password belongs to the hash, or an error
/// for a text that is no hash. The result is a function of the arguments.
#[verifier::external_body]
fn bcrypt_verify(password: &str, hash: &str) -> (r: Result<bool, bcrypt::BcryptError>)
    ensures
        r matches Ok(b) ==> spec_password_matches(password@, hash@) == Some(b),
        r is Err ==> spec_password_matches(password@, hash@) is None,
{
    bcrypt::verify(password, hash)
}

/// `bcrypt::hash` at `bcrypt::DEFAULT_COST`: a hash of the password under a
/// salt drawn at random. Which hash comes out is open; one that does is a
/// hash to which the password belongs, since `bcrypt::verify` reads salt
/// and cost from the hash, hashes the password again and compares.
#[verifier::external_body]
fn bcrypt_hash(password: &str) -> (r: Result<String, bcrypt::BcryptError>)
    ensures
        r matches Ok(h) ==> spec_password_matches(password@, h@) == Some(true),
{
    bcrypt::hash(password, bcrypt::DEFAULT_COST)
}

/// Signup, first stage: the payload must be sound.
pub fn auth_signup_check(body: &SignupIn) -> (r: Result<(), Failure>)
    ensures
        r == (match signup_fault(*body) {
            Some(fault) => Err::<(), Failure>(Failure::Invalid(fault)),
            None => Ok::<(), Failure>(()),
        }),
{
    match check_signup(body) {
        Some(fault) => Err(Failure::Invalid(fault)),
        None => Ok(()),
    }
}

/// Signup, second stage: nobody may have the email yet.
pub fn auth_signup_admit(existing: &Lookup<UserDb>) -> (r: Result<(), Failure>)
    ensures
        r == (match *existing {
            Lookup::Failed => Err::<(), Failure>(Failure::Database),
            Lookup::Found(_) => Err::<(), Failure>(Failure::EmailTaken),
            Lookup::Absent => Ok::<(), Failure>(()),
        }),
{
    match existing {
        Lookup::Failed => Err(Failure::Database),
        Lookup::Found(_) => Err(Failure::EmailTaken),
        Lookup::Absent => Ok(()),
    }
}

/// The user that a signup with the given outcome of hashing creates.
pub fn new_user(
    body: SignupIn,
    id: ResourceId,
    hashed: Result<String, bcrypt::BcryptError>,
) -> (r: Result<UserDb, Failure>)
    ensures
        match hashed {
            Err(_) => r == Err::<UserDb, Failure>(Failure::PasswordHashing),
            Ok(h) => r == Ok::<UserDb, Failure>(
                UserDb { id, email: body.email, name: body.name, password_hash: h },
            ),
        },
{
    match hashed {
        Err(_) => Err(Failure::PasswordHashing),
        Ok(h) => Ok(UserDb { id, email: body.email, name: body.name, password_hash: h }),
    }
}

/// Signup, third stage: the password of the payload is hashed and the user
/// made. Whatever the hash, hashing is the only thing that fails, and the
/// user that comes out has the given identifier, the email and name of the
/// payload, and a stored hash to which the password of the payload belongs.
pub fn auth_signup_user(body: SignupIn, id: ResourceId) -> (r: Result<UserDb, Failure>)
    ensures
        r matches Err(f) ==> f == Failure::PasswordHashing,
        r matches Ok(u) ==> u.id == id && u.email == body.email && u.name == body.name,
        r matches Ok(u) ==> spec_password_matches(body.password@, u.password_hash@) == Some(true),
{
    let hashed = bcrypt_hash(body.password.as_str());
    new_user(body, id, hashed)
}

/// The answer to a signup or login, as it should come out for a user: the
/// token issued for the user at `now`, and the user's public face.
pub open spec fn auth_out_holds(
    user: UserDb,
    secret: Seq<char>,
    now: u64,
    r: Result<AuthOut, Failure>,
) -> bool {
    match issued_token(user.id, secret, now) {
        None => r == Err::<AuthOut, Failure>(Failure::TokenGeneration),
        Some(t) => r matches Ok(out) && out.token@ == t && shows_user(out.user, user),
    }
}

/// Signup, last stage, and the end of a login: a token is issued for the
/// user, and the user is shown.
pub fn auth_respond(user: &UserDb, jwt_secret: &str, now: u64) -> (r: Result<AuthOut, Failure>)
    ensures
        auth_out_holds(*user, jwt_secret@, now, r),
{
    match issue_token_at(user.id, jwt_secret, now) {
        Ok(token) => Ok(AuthOut { token, user: UserOut::of(user) }),
        Err(e) => Err(failure_of(e)),
    }
}

/// Login, first stage: email and password must be given.
pub fn auth_login_check(body: &LoginIn) -> (r: Result<(), Failure>)
    ensures
        r == (if is_blank(body.email@) || is_blank(body.password@) {
            Err::<(), Failure>(Failure::CredentialsRequired)
        } else {
            Ok::<(), Failure>(())
        }),
{
    if is_blank_str(body.email.as_str()) || is_blank_str(body.password.as_str()) {
        Err(Failure::CredentialsRequired)
    } else {
        Ok(())
    }
}

/// Whether the outcome of holding a password against a hash opens the
/// account: only a plain yes does.
pub fn password_accepted(checked: Result<bool, bcrypt::BcryptError>) -> (r: bool)
    ensures
        r == (checked matches Ok(true)),
{
    match checked {
        Ok(matches) => matches,
        Err(_) => false,
    }
}

/// Login, second stage, as it should come out: the user must exist and the
/// password must be theirs; who fails either way learns the same.
pub open spec fn login_holds(
    body: LoginIn,
    user: Lookup<UserDb>,
    secret: Seq<char>,
    now: u64,
    r: Result<AuthOut, Failure>,
) -> bool {
    match user {
        Lookup::Failed => r == Err::<AuthOut, Failure>(Failure::Database),
        Lookup::Absent => r == Err::<AuthOut, Failure>(Failure::InvalidCredentials),
        Lookup::Found(u) => if spec_password_matches(body.password@, u.password_hash@) == Some(
            true,
        ) {
            auth_out_holds(u, secret, now, r)
        } else {
            r == Err::<AuthOut, Failure>(Failure::InvalidCredentials)
        },
    }
}

/// Login, second stage: the password is held against the stored hash, and
/// a token is issued.
pub fn auth_login_decide(body: &LoginIn, user: Lookup<UserDb>, jwt_secret: &str, now: u64) -> (r:
    Result<AuthOut, Failure>)
    ensures
        login_holds(*body, user, jwt_secret@, now, r),
{
    let u = match user {
        Lookup::Failed => {
            return Err(Failure::Database);
        },
        Lookup::Absent => {
            return Err(Failure::InvalidCredentials);
        },
        Lookup::Found(u) => u,
    };
    if password_accepted(bcrypt_verify(body.password.as_str(), u.password_hash.as_str())) {
        auth_respond(&u, jwt_secret, now)
    } else {
        Err(Failure::InvalidCredentials)
    }
}

/// The caller's own profile: the record of the caller, if it is still there.
pub fn me_get_decide(caller: ResourceId, user: Lookup<UserDb>) -> (r: Result<UserOut, Failure>)
    ensures
        match user {
            Lookup::Failed => r == Err::<UserOut, Failure>(Failure::Database),
            Lookup::Absent => r == Err::<UserOut, Failure>(Failure::ProfileNotFound),
            Lookup::Found(u) => if u.id == caller {
                r matches Ok(out) && shows_user(out, u)
            } else {
                r == Err::<UserOut, Failure>(Failure::ProfileNotFound)
            },
        },
{
    match user {
        Lookup::Failed => Err(Failure::Database),
        Lookup::Absent => Err(Failure::ProfileNotFound),
        Lookup::Found(u) => {
            if u.id == caller {
                Ok(UserOut::of(&u))
            } else {
                Err(Failure::ProfileNotFound)
            }
        },
    }
}

} // verus!
