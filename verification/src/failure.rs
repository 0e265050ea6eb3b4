//! The ways a request can end without success, each with its category and
//! the short message that the client is shown.

use crate::validate::{fault_message, Fault};
use vstd::prelude::*;

verus! {

/// The categories of failure. The first three are answered as unauthorized.
#[derive(Clone, Copy, Debug, PartialEq, Eq, Structural)]
pub enum FailureKind {
    MissingCredential,
    MalformedCredential,
    InvalidCredential,
    Forbidden,
    NotFound,
    BadRequest,
    InternalError,
}

/// A terminal failure of a request.
#[derive(Clone, Copy, Debug, PartialEq, Eq, Structural)]
pub enum Failure {
    /// No credential header came with the request.
    MissingCredential,
    /// The credential header is not text of the shape `<scheme> <token>`.
    MalformedCredential,
    /// The scheme of the credential is not `Bearer`.
    WrongScheme,
    /// The token is forged, damaged or expired.
    InvalidToken,
    /// The subject of the token is not an identifier.
    InvalidTokenSubject,
    /// No user has this email and password.
    InvalidCredentials,
    /// The caller is not a member of the organization.
    NotMember,
    /// Only the owner adds members.
    OwnerOnlyAddMember,
    /// Only the owner deletes the organization.
    OwnerOnlyDelete,
    /// No such organization, or none that the caller may see.
    OrganizationNotFound,
    /// No such issue.
    IssueNotFound,
    /// The caller's own user record is gone.
    ProfileNotFound,
    /// The identifier in the path is not an identifier.
    InvalidId,
    /// The organization identifier is not an identifier.
    InvalidOrganizationId,
    /// A query that needs an organization identifier has none.
    OrganizationIdRequired,
    /// The assignee identifier is not an identifier.
    InvalidAssigneeId,
    /// The assignee is not a member of the organization.
    AssigneeNotMember,
    /// The parent identifier is not an identifier.
    InvalidParentIssueId,
    /// The parent is no issue of the same organization.
    ParentNotInOrganization,
    /// An update names another organization than the one the issue belongs to.
    OrganizationMismatch,
    /// No user has the email of the member to add.
    UnknownUser,
    /// Another organization has the same key.
    DuplicateKey,
    /// Another user has the same email.
    EmailTaken,
    /// A login lacks the email or the password.
    CredentialsRequired,
    /// The payload breaks a structural rule.
    Invalid(Fault),
    /// Storage failed.
    Database,
    /// The token could not be signed.
    TokenGeneration,
    /// The password could not be hashed.
    PasswordHashing,
}

/// The category of a failure.
pub open spec fn failure_kind(f: Failure) -> FailureKind {
    match f {
        Failure::MissingCredential => FailureKind::MissingCredential,
        Failure::MalformedCredential => FailureKind::MalformedCredential,
        Failure::WrongScheme | Failure::InvalidToken | Failure::InvalidTokenSubject
        | Failure::InvalidCredentials => FailureKind::InvalidCredential,
        Failure::NotMember | Failure::OwnerOnlyAddMember | Failure::OwnerOnlyDelete =>
            FailureKind::Forbidden,
        Failure::OrganizationNotFound | Failure::IssueNotFound | Failure::ProfileNotFound =>
            FailureKind::NotFound,
        Failure::Database | Failure::TokenGeneration | Failure::PasswordHashing =>
            FailureKind::InternalError,
        _ => FailureKind::BadRequest,
    }
}

/// The message of a failure.
pub open spec fn failure_message(f: Failure) -> Seq<char> {
    match f {
        Failure::MissingCredential => "Missing Authorization header"@,
        Failure::MalformedCredential => "Invalid Authorization header"@,
        Failure::WrongScheme => "Expected Bearer token"@,
        Failure::InvalidToken => "Invalid token"@,
        Failure::InvalidTokenSubject => "Invalid token subject"@,
        Failure::InvalidCredentials => "Invalid credentials"@,
        Failure::NotMember => "Not a member of this organization"@,
        Failure::OwnerOnlyAddMember => "Only the owner can add members"@,
        Failure::OwnerOnlyDelete => "Only the owner can delete the organization"@,
        Failure::OrganizationNotFound => "Organization not found"@,
        Failure::IssueNotFound => "Issue not found"@,
        Failure::ProfileNotFound => "User not found"@,
        Failure::InvalidId => "Invalid id"@,
        Failure::InvalidOrganizationId => "Invalid organizationId"@,
        Failure::OrganizationIdRequired => "organizationId is required"@,
        Failure::InvalidAssigneeId => "Invalid assigneeId"@,
        Failure::AssigneeNotMember => "assigneeId must be a member of the organization"@,
        Failure::InvalidParentIssueId => "Invalid parentIssueId"@,
        Failure::ParentNotInOrganization => "parentIssueId not found in organization"@,
        Failure::OrganizationMismatch => "organizationId does not match the issue"@,
        Failure::UnknownUser => "User not found"@,
        Failure::DuplicateKey => "Organization key already exists"@,
        Failure::EmailTaken => "Email already exists"@,
        Failure::CredentialsRequired => "Email and password are required"@,
        Failure::Invalid(fault) => fault_message(fault),
        Failure::Database => "Database error"@,
        Failure::TokenGeneration => "Token generation failed"@,
        Failure::PasswordHashing => "Password hashing failed"@,
    }
}

/// The status code that answers a failure of a category.
pub open spec fn kind_status(k: FailureKind) -> u16 {
    match k {
        FailureKind::MissingCredential | FailureKind::MalformedCredential
        | FailureKind::InvalidCredential => 401,
        FailureKind::Forbidden => 403,
        FailureKind::NotFound => 404,
        FailureKind::BadRequest => 400,
        FailureKind::InternalError => 500,
    }
}

impl FailureKind {
    /// The status code that answers a failure of this category.
    pub fn status_code(self) -> (code: u16)
        ensures
            code == kind_status(self),
    {
        match self {
            FailureKind::MissingCredential => 401,
            FailureKind::MalformedCredential => 401,
            FailureKind::InvalidCredential => 401,
            FailureKind::Forbidden => 403,
            FailureKind::NotFound => 404,
            FailureKind::BadRequest => 400,
            FailureKind::InternalError => 500,
        }
    }
}

impl Failure {
    /// The category of the failure.
    pub fn kind(self) -> (k: FailureKind)
        ensures
            k == failure_kind(self),
    {
        match self {
            Failure::MissingCredential => FailureKind::MissingCredential,
            Failure::MalformedCredential => FailureKind::MalformedCredential,
            Failure::WrongScheme => FailureKind::InvalidCredential,
            Failure::InvalidToken => FailureKind::InvalidCredential,
            Failure::InvalidTokenSubject => FailureKind::InvalidCredential,
            Failure::InvalidCredentials => FailureKind::InvalidCredential,
            Failure::NotMember => FailureKind::Forbidden,
            Failure::OwnerOnlyAddMember => FailureKind::Forbidden,
            Failure::OwnerOnlyDelete => FailureKind::Forbidden,
            Failure::OrganizationNotFound => FailureKind::NotFound,
            Failure::IssueNotFound => FailureKind::NotFound,
            Failure::ProfileNotFound => FailureKind::NotFound,
            Failure::Database => FailureKind::InternalError,
            Failure::TokenGeneration => FailureKind::InternalError,
            Failure::PasswordHashing => FailureKind::InternalError,
            _ => FailureKind::BadRequest,
        }
    }

    /// The message that the client is shown.
    pub fn message(self) -> (m: &'static str)
        ensures
            m@ == failure_message(self),
    {
        match self {
            Failure::MissingCredential => "Missing Authorization header",
            Failure::MalformedCredential => "Invalid Authorization header",
            Failure::WrongScheme => "Expected Bearer token",
            Failure::InvalidToken => "Invalid token",
            Failure::InvalidTokenSubject => "Invalid token subject",
            Failure::InvalidCredentials => "Invalid credentials",
            Failure::NotMember => "Not a member of this organization",
            Failure::OwnerOnlyAddMember => "Only the owner can add members",
            Failure::OwnerOnlyDelete => "Only the owner can delete the organization",
            Failure::OrganizationNotFound => "Organization not found",
            Failure::IssueNotFound => "Issue not found",
            Failure::ProfileNotFound => "User not found",
            Failure::InvalidId => "Invalid id",
            Failure::InvalidOrganizationId => "Invalid organizationId",
            Failure::OrganizationIdRequired => "organizationId is required",
            Failure::InvalidAssigneeId => "Invalid assigneeId",
            Failure::AssigneeNotMember => "assigneeId must be a member of the organization",
            Failure::InvalidParentIssueId => "Invalid parentIssueId",
            Failure::ParentNotInOrganization => "parentIssueId not found in organization",
            Failure::OrganizationMismatch => "organizationId does not match the issue",
            Failure::UnknownUser => "User not found",
            Failure::DuplicateKey => "Organization key already exists",
            Failure::EmailTaken => "Email already exists",
            Failure::CredentialsRequired => "Email and password are required",
            Failure::Invalid(fault) => fault.message(),
            Failure::Database => "Database error",
            Failure::TokenGeneration => "Token generation failed",
            Failure::PasswordHashing => "Password hashing failed",
        }
    }

    /// The status code that answers the failure.
    pub fn status_code(self) -> (code: u16)
        ensures
            code == kind_status(failure_kind(self)),
    {
        self.kind().status_code()
    }
}

} // verus!
