//! Structural checks on incoming payloads. Each check names the first rule
//! that a payload breaks, by the message that the client is shown.

use crate::models::{IssueIn, OrganizationCreateIn, SignupIn};
use crate::status::{canonical_status, normalize_status};
use crate::text::{has_char, is_blank, is_blank_str, trim, trimmed};
use vstd::prelude::*;
use vstd::utf8::encode_utf8;

verus! {

/// The shortest password that a signup accepts, in bytes.
pub const MIN_PASSWORD_LEN: usize = 8;

/// The shortest organization key, in bytes, after trimming.
pub const MIN_KEY_LEN: usize = 2;

/// The longest organization key, in bytes, after trimming.
pub const MAX_KEY_LEN: usize = 8;

/// The length of a string in bytes.
pub open spec fn byte_len(s: Seq<char>) -> nat {
    encode_utf8(s).len()
}

/// A structural rule that a payload can break.
#[derive(Clone, Copy, Debug, PartialEq, Eq, Structural)]
pub enum Fault {
    /// A signup field is blank.
    SignupFieldsRequired,
    /// An email has no `@`.
    InvalidEmail,
    /// A password is shorter than eight bytes.
    PasswordTooShort,
    /// The name or the key of an organization is blank.
    NameAndKeyRequired,
    /// An organization key is not two to eight bytes long after trimming.
    KeyLength,
    /// A required field of an issue is blank.
    IssueFieldsRequired,
    /// The status of an issue is not a status.
    InvalidStatus,
}

/// The message that the client is shown for a broken rule.
pub open spec fn fault_message(f: Fault) -> Seq<char> {
    match f {
        Fault::SignupFieldsRequired => "All fields are required"@,
        Fault::InvalidEmail => "Invalid email"@,
        Fault::PasswordTooShort => "Password must be at least 8 characters"@,
        Fault::NameAndKeyRequired => "name and key are required"@,
        Fault::KeyLength => "key must be 2-8 characters"@,
        Fault::IssueFieldsRequired => "organizationId, title, description, status are required"@,
        Fault::InvalidStatus => "Invalid status"@,
    }
}

impl Fault {
    /// The message that the client is shown.
    pub fn message(self) -> (m: &'static str)
        ensures
            m@ == fault_message(self),
    {
        match self {
            Fault::SignupFieldsRequired => "All fields are required",
            Fault::InvalidEmail => "Invalid email",
            Fault::PasswordTooShort => "Password must be at least 8 characters",
            Fault::NameAndKeyRequired => "name and key are required",
            Fault::KeyLength => "key must be 2-8 characters",
            Fault::IssueFieldsRequired => "organizationId, title, description, status are required",
            Fault::InvalidStatus => "Invalid status",
        }
    }
}

/// The rule that a signup payload breaks first, if any: a field is blank,
/// the email has no `@`, the password is shorter than eight bytes.
pub open spec fn signup_fault(body: SignupIn) -> Option<Fault> {
    if is_blank(body.email@) || is_blank(body.name@) || is_blank(body.password@) {
        Some(Fault::SignupFieldsRequired)
    } else if !body.email@.contains('@') {
        Some(Fault::InvalidEmail)
    } else if byte_len(body.password@) < MIN_PASSWORD_LEN {
        Some(Fault::PasswordTooShort)
    } else {
        None
    }
}

/// The rule that an organization payload breaks first, if any: name or key
/// is blank, the trimmed key is not two to eight bytes long.
pub open spec fn org_fault(body: OrganizationCreateIn) -> Option<Fault> {
    if is_blank(body.name@) || is_blank(body.key@) {
        Some(Fault::NameAndKeyRequired)
    } else if byte_len(trim(body.key@)) < MIN_KEY_LEN || byte_len(trim(body.key@)) > MAX_KEY_LEN {
        Some(Fault::KeyLength)
    } else {
        None
    }
}

/// The rule that an issue payload breaks first, if any: a required field is
/// blank, the trimmed status is not a status.
pub open spec fn issue_fault(body: IssueIn) -> Option<Fault> {
    if is_blank(body.organization_id@) || is_blank(body.title@) || is_blank(body.description@)
        || is_blank(body.status@) {
        Some(Fault::IssueFieldsRequired)
    } else if canonical_status(trim(body.status@)) is None {
        Some(Fault::InvalidStatus)
    } else {
        None
    }
}

/// A result that reports exactly the given fault, by its message.
pub open spec fn reports(r: Result<(), &'static str>, fault: Option<Fault>) -> bool {
    match r {
        Ok(_) => fault is None,
        Err(m) => fault matches Some(f) && m@ == fault_message(f),
    }
}

/// The first rule that a signup payload breaks.
pub fn check_signup(body: &SignupIn) -> (r: Option<Fault>)
    ensures
        r == signup_fault(*body),
{
    if is_blank_str(body.email.as_str()) || is_blank_str(body.name.as_str()) || is_blank_str(
        body.password.as_str(),
    ) {
        return Some(Fault::SignupFieldsRequired);
    }
    if !has_char(body.email.as_str(), '@') {
        return Some(Fault::InvalidEmail);
    }
    if body.password.as_str().as_bytes().len() < MIN_PASSWORD_LEN {
        return Some(Fault::PasswordTooShort);
    }
    None
}

/// The first rule that a payload creating an organization breaks.
pub fn check_org(body: &OrganizationCreateIn) -> (r: Option<Fault>)
    ensures
        r == org_fault(*body),
{
    if is_blank_str(body.name.as_str()) || is_blank_str(body.key.as_str()) {
        return Some(Fault::NameAndKeyRequired);
    }
    let key = trimmed(body.key.as_str()).as_bytes();
    if key.len() < MIN_KEY_LEN || key.len() > MAX_KEY_LEN {
        return Some(Fault::KeyLength);
    }
    None
}

/// The first rule that a payload creating or updating an issue breaks.
pub fn check_issue(body: &IssueIn) -> (r: Option<Fault>)
    ensures
        r == issue_fault(*body),
{
    if is_blank_str(body.organization_id.as_str()) || is_blank_str(body.title.as_str())
        || is_blank_str(body.description.as_str()) || is_blank_str(body.status.as_str()) {
        return Some(Fault::IssueFieldsRequired);
    }
    if normalize_status(trimmed(body.status.as_str())).is_none() {
        return Some(Fault::InvalidStatus);
    }
    None
}

/// The rule that the email of a member to add breaks, if any: the email,
/// already trimmed and in lower case, is empty or has no `@`.
pub open spec fn member_email_fault(email: Seq<char>) -> Option<Fault> {
    if email.len() == 0 || !email.contains('@') {
        Some(Fault::InvalidEmail)
    } else {
        None
    }
}

/// Checks the email of a member to add, already trimmed and in lower case.
pub fn check_member_email(email: &str) -> (r: Option<Fault>)
    ensures
        r == member_email_fault(email@),
{
    if email.is_empty() || !has_char(email, '@') {
        Some(Fault::InvalidEmail)
    } else {
        None
    }
}

fn to_result(fault: Option<Fault>) -> (r: Result<(), &'static str>)
    ensures
        reports(r, fault),
{
    match fault {
        Some(f) => Err(f.message()),
        None => Ok(()),
    }
}

/// Checks a signup payload.
pub fn validate_signup(body: &SignupIn) -> (r: Result<(), &'static str>)
    ensures
        reports(r, signup_fault(*body)),
{
    to_result(check_signup(body))
}

/// Checks a payload that creates an organization.
pub fn validate_org(body: &OrganizationCreateIn) -> (r: Result<(), &'static str>)
    ensures
        reports(r, org_fault(*body)),
{
    to_result(check_org(body))
}

/// Checks a payload that creates or updates an issue.
pub fn validate_issue(body: &IssueIn) -> (r: Result<(), &'static str>)
    ensures
        reports(r, issue_fault(*body)),
{
    to_result(check_issue(body))
}

} // verus!
