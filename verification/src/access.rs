//! The authorization rules: who is calling, which record they mean, and
//! whether they may do what they ask. Every endpoint that touches an
//! organization or its issues passes through `authorize`.

use crate::auth::{authentication, require_user_id_at, Credential};
use crate::failure::{failure_kind, Failure, FailureKind};
use crate::ident::{parse_id, ResourceId};
use crate::models::{IssueDb, OrganizationDb};
use crate::storage::Lookup;
use vstd::prelude::*;

verus! {

/// The caller of a request and the record that it names.
#[derive(Debug, Clone, Copy, PartialEq, Eq)]
pub struct Target {
    /// The authenticated user.
    pub caller: ResourceId,
    /// The identifier of the record.
    pub id: ResourceId,
}

/// What a caller can ask to do to an organization or to its issues.
/// Creating an organization is not among them: any authenticated user may.
#[derive(Debug, Clone, Copy, PartialEq, Eq, Structural)]
pub enum Action {
    AddMember,
    DeleteOrganization,
    GetOrganization,
    ListMembers,
    CreateIssue,
    UpdateIssue,
    DeleteIssue,
    GetIssue,
    ListIssues,
    SearchIssues,
}

/// The actions that only the owner of an organization may take. All
/// others are open to every member.
pub open spec fn needs_owner(action: Action) -> bool {
    action is AddMember || action is DeleteOrganization
}

/// The policy: the owner-only actions are for the owner, all others for
/// those whom the organization lists as members.
pub open spec fn permitted(action: Action, caller: ResourceId, org: OrganizationDb) -> bool {
    if needs_owner(action) {
        org.owner_id == caller
    } else {
        org.members().contains(caller)
    }
}

/// How a request ends for a caller who is not permitted. Somebody who asks
/// for an organization that is not theirs learns no more than that it is
/// not found; every other refusal says that it is one.
pub open spec fn refusal(action: Action) -> Failure {
    match action {
        Action::AddMember => Failure::OwnerOnlyAddMember,
        Action::DeleteOrganization => Failure::OwnerOnlyDelete,
        Action::GetOrganization => Failure::OrganizationNotFound,
        _ => Failure::NotMember,
    }
}

/// How a request ends where the organization does not exist. The actions
/// on the organization itself say so, but for the listing of its members;
/// that and the actions on issues answer as to somebody who is no member.
pub open spec fn absence(action: Action) -> Failure {
    match action {
        Action::AddMember | Action::DeleteOrganization | Action::GetOrganization =>
            Failure::OrganizationNotFound,
        _ => Failure::NotMember,
    }
}

/// What the policy makes of a lookup of the organization `org_id`: a
/// failure of storage is an internal error; anything but the record of
/// `org_id` counts as absent; the record is handed on if the caller is
/// permitted.
pub open spec fn authorization(
    action: Action,
    caller: ResourceId,
    org_id: ResourceId,
    org: Lookup<OrganizationDb>,
) -> Result<OrganizationDb, Failure> {
    match org {
        Lookup::Failed => Err(Failure::Database),
        Lookup::Absent => Err(absence(action)),
        Lookup::Found(o) => if o.id != org_id {
            Err(absence(action))
        } else if !permitted(action, caller, o) {
            Err(refusal(action))
        } else {
            Ok(o)
        },
    }
}

/// Who calls and which record they name: the credential is judged first,
/// the identifier text after it.
pub open spec fn target_outcome(
    credential: Credential,
    secret: Seq<char>,
    now: u64,
    id: Seq<char>,
) -> Result<Target, Failure> {
    match authentication(credential, secret, now) {
        Err(f) => Err(f),
        Ok(caller) => match parse_id(id) {
            Some(id) => Ok(Target { caller, id }),
            None => Err(Failure::InvalidId),
        },
    }
}

/// What locating an issue makes of a lookup: the issue with the identifier
/// asked for, or not found.
pub open spec fn issue_outcome(id: ResourceId, issue: Lookup<IssueDb>) -> Result<IssueDb, Failure> {
    match issue {
        Lookup::Failed => Err(Failure::Database),
        Lookup::Absent => Err(Failure::IssueNotFound),
        Lookup::Found(i) => if i.id == id {
            Ok(i)
        } else {
            Err(Failure::IssueNotFound)
        },
    }
}

/// Whoever is authorized is permitted, and holds the record that was asked
/// for: a member for the actions of members, the owner for the others.
pub proof fn lemma_authorized_is_permitted(
    action: Action,
    caller: ResourceId,
    org_id: ResourceId,
    org: Lookup<OrganizationDb>,
)
    ensures
        authorization(action, caller, org_id, org) matches Ok(o) ==> org == Lookup::Found(o) && o.id
            == org_id && permitted(action, caller, o),
        !needs_owner(action) ==> (authorization(action, caller, org_id, org) matches Ok(o)
            ==> o.members().contains(caller)),
        needs_owner(action) ==> (authorization(action, caller, org_id, org) matches Ok(o)
            ==> o.owner_id == caller),
{
}

/// In an organization that lists its owner, the owner may do everything.
pub proof fn lemma_owner_is_permitted(action: Action, org: OrganizationDb)
    requires
        org.well_formed(),
    ensures
        permitted(action, org.owner_id, org),
{
}

/// Nobody but the owner may take an owner-only action, member or not.
pub proof fn lemma_owner_only(action: Action, caller: ResourceId, org: OrganizationDb)
    requires
        needs_owner(action),
    ensures
        permitted(action, caller, org) <==> caller == org.owner_id,
{
}

/// A request that is not authorized ends as an internal error where storage
/// failed, and else as forbidden or as not found: never as a bad request,
/// and never as unauthorized.
pub proof fn lemma_refusal_kinds(
    action: Action,
    caller: ResourceId,
    org_id: ResourceId,
    org: Lookup<OrganizationDb>,
)
    ensures
        authorization(action, caller, org_id, org) matches Err(f) ==> (if org is Failed {
            failure_kind(f) == FailureKind::InternalError
        } else {
            failure_kind(f) == FailureKind::Forbidden || failure_kind(f) == FailureKind::NotFound
        }),
        failure_kind(refusal(action)) == (if action is GetOrganization {
            FailureKind::NotFound
        } else {
            FailureKind::Forbidden
        }),
{
}

/// Whether the caller may take the action on the organization.
pub fn is_permitted(action: Action, caller: ResourceId, org: &OrganizationDb) -> (r: bool)
    ensures
        r == permitted(action, caller, *org),
{
    match action {
        Action::AddMember => org.is_owner(caller),
        Action::DeleteOrganization => org.is_owner(caller),
        _ => org.is_member(caller),
    }
}

/// The failure that ends the request of a caller who is not permitted.
pub fn refusal_of(action: Action) -> (f: Failure)
    ensures
        f == refusal(action),
{
    match action {
        Action::AddMember => Failure::OwnerOnlyAddMember,
        Action::DeleteOrganization => Failure::OwnerOnlyDelete,
        Action::GetOrganization => Failure::OrganizationNotFound,
        _ => Failure::NotMember,
    }
}

/// The failure that ends a request for an organization that is not there.
pub fn absence_of(action: Action) -> (f: Failure)
    ensures
        f == absence(action),
{
    match action {
        Action::AddMember => Failure::OrganizationNotFound,
        Action::DeleteOrganization => Failure::OrganizationNotFound,
        Action::GetOrganization => Failure::OrganizationNotFound,
        _ => Failure::NotMember,
    }
}

/// Authorizes the caller for an action on the organization `org_id`, given what
/// storage answered when asked for that organization.
pub fn authorize(action: Action, caller: ResourceId, org_id: ResourceId, org: Lookup<OrganizationDb>) -> (r:
    Result<OrganizationDb, Failure>)
    ensures
        r == authorization(action, caller, org_id, org),
{
    match org {
        Lookup::Failed => Err(Failure::Database),
        Lookup::Absent => Err(absence_of(action)),
        Lookup::Found(o) => {
            if o.id != org_id {
                Err(absence_of(action))
            } else if !is_permitted(action, caller, &o) {
                Err(refusal_of(action))
            } else {
                Ok(o)
            }
        },
    }
}

/// Authenticates the caller and reads the identifier in the path.
pub fn resolve_target(credential: &Credential, jwt_secret: &str, now: u64, id: &str) -> (r: Result<
    Target,
    Failure,
>)
    ensures
        r == target_outcome(*credential, jwt_secret@, now, id@),
{
    let caller = match require_user_id_at(credential, jwt_secret, now) {
        Ok(c) => c,
        Err(f) => {
            return Err(f);
        },
    };
    match ResourceId::parse_str(id) {
        Some(id) => Ok(Target { caller, id }),
        None => Err(Failure::InvalidId),
    }
}

/// Locates the issue `id` in what storage answered.
pub fn locate_issue(id: ResourceId, issue: Lookup<IssueDb>) -> (r: Result<IssueDb, Failure>)
    ensures
        r == issue_outcome(id, issue),
{
    match issue {
        Lookup::Failed => Err(Failure::Database),
        Lookup::Absent => Err(Failure::IssueNotFound),
        Lookup::Found(i) => {
            if i.id == id {
                Ok(i)
            } else {
                Err(Failure::IssueNotFound)
            }
        },
    }
}

} // verus!
