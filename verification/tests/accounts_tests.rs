use backend::accounts::{
    auth_login_check, auth_login_decide, auth_respond, auth_signup_admit, auth_signup_check,
    auth_signup_user, me_get_decide, new_user, password_accepted,
};
use backend::failure::{Failure, FailureKind};
use backend::storage::Lookup;
use backend::ident::ResourceId;
use backend::models::{LoginIn, SignupIn, UserDb, UserOut};
use backend::token::verify_at;
use backend::validate::Fault;

const SECRET: &str = "dev-secret-change-me";
const NOW: u64 = 1_700_000_000;

fn id(n: u8) -> ResourceId {
    ResourceId { bytes: [n; 12] }
}

fn signup(email: &str, name: &str, password: &str) -> SignupIn {
    SignupIn { email: email.to_string(), name: name.to_string(), password: password.to_string() }
}

fn login(email: &str, password: &str) -> LoginIn {
    LoginIn { email: email.to_string(), password: password.to_string() }
}

fn alice(password: &str) -> UserDb {
    UserDb {
        id: id(1),
        email: "alice@example.com".to_string(),
        name: "Alice".to_string(),
        password_hash: bcrypt::hash(password, 4).unwrap(),
    }
}

#[test]
fn signup_checks_the_payload() {
    assert_eq!(auth_signup_check(&signup("alice@example.com", "Alice", "Password123!")), Ok(()));
    assert_eq!(
        auth_signup_check(&signup("alice@example.com", "", "Password123!")),
        Err(Failure::Invalid(Fault::SignupFieldsRequired))
    );
    assert_eq!(
        auth_signup_check(&signup("alice", "Alice", "Password123!")),
        Err(Failure::Invalid(Fault::InvalidEmail))
    );
    assert_eq!(
        auth_signup_check(&signup("alice@example.com", "Alice", "short")),
        Err(Failure::Invalid(Fault::PasswordTooShort))
    );
}

#[test]
fn signup_needs_a_free_email() {
    assert_eq!(auth_signup_admit(&Lookup::Absent), Ok(()));
    let r = auth_signup_admit(&Lookup::Found(alice("Password123!")));
    assert_eq!(r, Err(Failure::EmailTaken));
    assert_eq!(r.unwrap_err().kind(), FailureKind::BadRequest);
    assert_eq!(auth_signup_admit(&Lookup::Failed), Err(Failure::Database));
}

#[test]
fn signup_stores_a_hash_and_not_the_password() {
    let user = auth_signup_user(signup("alice@example.com", "Alice", "Password123!"), id(1)).unwrap();
    assert_eq!(user.id, id(1));
    assert_eq!(user.email, "alice@example.com");
    assert_eq!(user.name, "Alice");
    assert_ne!(user.password_hash, "Password123!");
    assert!(bcrypt::verify("Password123!", &user.password_hash).unwrap());
    assert!(!bcrypt::verify("password123!", &user.password_hash).unwrap());
}

#[test]
fn user_is_made_from_payload_and_hash() {
    let body = signup("alice@example.com", "Alice", "Password123!");
    assert_eq!(
        new_user(body.clone(), id(1), Ok("hash".to_string())),
        Ok(UserDb {
            id: id(1),
            email: "alice@example.com".to_string(),
            name: "Alice".to_string(),
            password_hash: "hash".to_string(),
        })
    );
    let failure = bcrypt::hash("x", 99);
    assert!(failure.is_err());
    assert_eq!(new_user(body, id(1), failure), Err(Failure::PasswordHashing));
}

#[test]
fn answer_carries_a_token_for_the_user() {
    let user = alice("Password123!");
    let out = auth_respond(&user, SECRET, NOW).unwrap();
    assert_eq!(
        out.user,
        UserOut { id: id(1).to_hex(), email: "alice@example.com".to_string(), name: "Alice".to_string() }
    );
    assert_eq!(verify_at(&out.token, SECRET, NOW + 86_400), Ok(id(1)));
    assert_eq!(auth_respond(&user, SECRET, u64::MAX), Err(Failure::TokenGeneration));
}

#[test]
fn login_needs_email_and_password() {
    assert_eq!(auth_login_check(&login("alice@example.com", "Password123!")), Ok(()));
    assert_eq!(auth_login_check(&login("", "Password123!")), Err(Failure::CredentialsRequired));
    assert_eq!(auth_login_check(&login("alice@example.com", "  ")), Err(Failure::CredentialsRequired));
}

#[test]
fn login_with_the_right_password_answers_with_a_token() {
    let body = login("alice@example.com", "Password123!");
    let out = auth_login_decide(&body, Lookup::Found(alice("Password123!")), SECRET, NOW).unwrap();
    assert_eq!(out.user.id, id(1).to_hex());
    assert_eq!(verify_at(&out.token, SECRET, NOW), Ok(id(1)));
}

#[test]
fn login_fails_the_same_way_for_unknown_user_and_wrong_password() {
    let body = login("alice@example.com", "Password123?");
    let wrong = auth_login_decide(&body, Lookup::Found(alice("Password123!")), SECRET, NOW);
    let unknown = auth_login_decide(&body, Lookup::Absent, SECRET, NOW);
    assert_eq!(wrong, Err(Failure::InvalidCredentials));
    assert_eq!(unknown, Err(Failure::InvalidCredentials));
    assert_eq!(wrong.unwrap_err().status_code(), 401);
    assert_eq!(auth_login_decide(&body, Lookup::Failed, SECRET, NOW), Err(Failure::Database));
}

#[test]
fn login_against_a_stored_text_that_is_no_hash_fails() {
    let mut user = alice("Password123!");
    user.password_hash = "Password123!".to_string();
    let body = login("alice@example.com", "Password123!");
    assert_eq!(auth_login_decide(&body, Lookup::Found(user), SECRET, NOW), Err(Failure::InvalidCredentials));
}

#[test]
fn profile_is_the_callers_own_record() {
    let user = alice("Password123!");
    assert_eq!(
        me_get_decide(id(1), Lookup::Found(user.clone())),
        Ok(UserOut { id: id(1).to_hex(), email: "alice@example.com".to_string(), name: "Alice".to_string() })
    );
    assert_eq!(me_get_decide(id(2), Lookup::Found(user)), Err(Failure::ProfileNotFound));
    assert_eq!(me_get_decide(id(1), Lookup::Absent), Err(Failure::ProfileNotFound));
    assert_eq!(me_get_decide(id(1), Lookup::Failed), Err(Failure::Database));
}

#[test]
fn only_a_plain_yes_opens_the_account() {
    assert!(password_accepted(Ok(true)));
    assert!(!password_accepted(Ok(false)));
    assert!(!password_accepted(bcrypt::verify("x", "no hash")));
    let hash = bcrypt::hash("Password123!", 4).unwrap();
    assert!(password_accepted(bcrypt::verify("Password123!", &hash)));
    assert!(!password_accepted(bcrypt::verify("Password123", &hash)));
}

#[test]
fn who_signed_up_can_log_in_with_the_same_password() {
    let long = "x".repeat(100);
    for password in ["Password123!", "pässwörd mit ümlauten", long.as_str()] {
        let user = auth_signup_user(signup("alice@example.com", "Alice", password), id(1)).unwrap();
        let body = login("alice@example.com", password);
        let out = auth_login_decide(&body, Lookup::Found(user.clone()), SECRET, NOW).unwrap();
        assert_eq!(verify_at(&out.token, SECRET, NOW), Ok(id(1)));
        let other = login("alice@example.com", "Password123?");
        assert_eq!(
            auth_login_decide(&other, Lookup::Found(user), SECRET, NOW),
            Err(Failure::InvalidCredentials)
        );
    }
}
