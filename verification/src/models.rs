//! Stored records and the payloads that come in and go out.

use crate::ident::{id_text, ResourceId};
use vstd::prelude::*;

verus! {

/// A stored user.
#[derive(Debug, Clone, PartialEq, Eq)]
pub struct UserDb {
    pub id: ResourceId,
    pub email: String,
    pub name: String,
    pub password_hash: String,
}

/// A user as shown to clients: no credential.
#[derive(Debug, Clone, PartialEq, Eq)]
pub struct UserOut {
    pub id: String,
    pub email: String,
    pub name: String,
}

/// Payload of a signup.
#[derive(Debug, Clone, PartialEq, Eq)]
pub struct SignupIn {
    pub email: String,
    pub name: String,
    pub password: String,
}

/// Payload of a login.
#[derive(Debug, Clone, PartialEq, Eq)]
pub struct LoginIn {
    pub email: String,
    pub password: String,
}

/// What a signup or login answers with.
#[derive(Debug, Clone, PartialEq, Eq)]
pub struct AuthOut {
    pub token: String,
    pub user: UserOut,
}

/// A stored organization.
#[derive(Debug, Clone, PartialEq, Eq)]
pub struct OrganizationDb {
    pub id: ResourceId,
    pub name: String,
    pub key: String,
    pub owner_id: ResourceId,
    pub member_ids: Vec<ResourceId>,
}

/// An organization as shown to clients.
#[derive(Debug, Clone, PartialEq, Eq)]
pub struct OrganizationOut {
    pub id: String,
    pub name: String,
    pub key: String,
    pub owner_id: String,
    pub member_ids: Vec<String>,
}

/// Payload that creates an organization.
#[derive(Debug, Clone, PartialEq, Eq)]
pub struct OrganizationCreateIn {
    pub name: String,
    pub key: String,
}

/// Payload that adds a member to an organization.
#[derive(Debug, Clone, PartialEq, Eq)]
pub struct OrganizationAddMemberIn {
    pub email: String,
}

/// A stored issue.
#[derive(Debug, Clone, PartialEq, Eq)]
pub struct IssueDb {
    pub id: ResourceId,
    pub organization_id: ResourceId,
    pub title: String,
    pub description: String,
    pub status: String,
    pub assignee_id: Option<ResourceId>,
    pub parent_issue_id: Option<ResourceId>,
}

/// An issue as shown to clients.
#[derive(Debug, Clone, PartialEq, Eq)]
pub struct IssueOut {
    pub id: String,
    pub organization_id: String,
    pub title: String,
    pub description: String,
    pub status: String,
    pub assignee_id: Option<String>,
    pub parent_issue_id: Option<String>,
}

/// Payload that creates or updates an issue.
#[derive(Debug, Clone, PartialEq, Eq)]
pub struct IssueIn {
    pub organization_id: String,
    pub title: String,
    pub description: String,
    pub status: String,
    pub assignee_id: Option<String>,
    pub parent_issue_id: Option<String>,
}

/// Query of a text search.
#[derive(Debug, Clone, PartialEq, Eq)]
pub struct SearchQuery {
    pub q: Option<String>,
    pub organization_id: Option<String>,
}

/// Query that lists issues.
#[derive(Debug, Clone, PartialEq, Eq)]
pub struct ListIssuesQuery {
    pub organization_id: Option<String>,
    pub parent_issue_id: Option<String>,
}

/// The text of an optional identifier.
pub open spec fn opt_id_text(id: Option<ResourceId>) -> Option<Seq<char>> {
    match id {
        Some(i) => Some(id_text(i@)),
        None => None,
    }
}

/// The characters of an optional string.
pub open spec fn opt_text(s: Option<String>) -> Option<Seq<char>> {
    match s {
        Some(t) => Some(t@),
        None => None,
    }
}

/// `out` is the public face of the stored user `u`: the identifier as
/// text, email and name as stored.
pub open spec fn shows_user(out: UserOut, u: UserDb) -> bool {
    &&& out.id@ == id_text(u.id@)
    &&& out.email@ == u.email@
    &&& out.name@ == u.name@
}

/// `out` is the public face of the stored organization `o`: identifiers as
/// text, the members in stored order.
pub open spec fn shows_organization(out: OrganizationOut, o: OrganizationDb) -> bool {
    &&& out.id@ == id_text(o.id@)
    &&& out.name@ == o.name@
    &&& out.key@ == o.key@
    &&& out.owner_id@ == id_text(o.owner_id@)
    &&& out.member_ids@.len() == o.member_ids@.len()
    &&& forall|i: int|
        0 <= i < o.member_ids@.len() ==> (#[trigger] out.member_ids@[i])@ == id_text(
            o.member_ids@[i]@,
        )
}

/// `out` is the public face of the stored issue `i`: identifiers as text,
/// the rest as stored.
pub open spec fn shows_issue(out: IssueOut, i: IssueDb) -> bool {
    &&& out.id@ == id_text(i.id@)
    &&& out.organization_id@ == id_text(i.organization_id@)
    &&& out.title@ == i.title@
    &&& out.description@ == i.description@
    &&& out.status@ == i.status@
    &&& opt_text(out.assignee_id) == opt_id_text(i.assignee_id)
    &&& opt_text(out.parent_issue_id) == opt_id_text(i.parent_issue_id)
}

fn opt_id_hex(id: Option<ResourceId>) -> (r: Option<String>)
    ensures
        opt_text(r) == opt_id_text(id),
{
    match id {
        Some(i) => Some(i.to_hex()),
        None => None,
    }
}

impl UserOut {
    /// The public face of a stored user; the credential is left out.
    pub fn from(u: UserDb) -> (r: UserOut)
        ensures
            shows_user(r, u),
    {
        UserOut::of(&u)
    }

    /// The public face of a stored user that stays where it is.
    pub fn of(u: &UserDb) -> (r: UserOut)
        ensures
            shows_user(r, *u),
    {
        UserOut { id: u.id.to_hex(), email: u.email.clone(), name: u.name.clone() }
    }
}

impl OrganizationOut {
    /// The public face of a stored organization.
    pub fn from(o: OrganizationDb) -> (r: OrganizationOut)
        ensures
            shows_organization(r, o),
    {
        OrganizationOut::of(&o)
    }

    /// The public face of a stored organization that stays where it is.
    pub fn of(o: &OrganizationDb) -> (r: OrganizationOut)
        ensures
            shows_organization(r, *o),
    {
        let mut members: Vec<String> = Vec::new();
        let mut i: usize = 0;
        while i < o.member_ids.len()
            invariant
                i <= o.member_ids@.len(),
                members@.len() == i,
                forall|j: int|
                    0 <= j < i ==> (#[trigger] members@[j])@ == id_text(o.member_ids@[j]@),
            decreases o.member_ids@.len() - i,
        {
            members.push(o.member_ids[i].to_hex());
            i += 1;
        }
        OrganizationOut {
            id: o.id.to_hex(),
            name: o.name.clone(),
            key: o.key.clone(),
            owner_id: o.owner_id.to_hex(),
            member_ids: members,
        }
    }
}

impl IssueOut {
    /// The public face of a stored issue.
    pub fn from(i: IssueDb) -> (r: IssueOut)
        ensures
            shows_issue(r, i),
    {
        IssueOut::of(&i)
    }

    /// The public face of a stored issue that stays where it is.
    pub fn of(i: &IssueDb) -> (r: IssueOut)
        ensures
            shows_issue(r, *i),
    {
        IssueOut {
            id: i.id.to_hex(),
            organization_id: i.organization_id.to_hex(),
            title: i.title.clone(),
            description: i.description.clone(),
            status: i.status.clone(),
            assignee_id: opt_id_hex(i.assignee_id),
            parent_issue_id: opt_id_hex(i.parent_issue_id),
        }
    }
}

} // verus!
