//! The decisions of the issue endpoints. Every one of them asks first who
//! calls, then whether the caller is a member of the issue's organization;
//! payloads are checked after that, references after the payload, and the
//! change comes last.

use crate::access::{authorization, authorize, Action, Target};
use crate::auth::{authentication, require_user_id_at, Credential};
use crate::failure::Failure;
use crate::ident::{parse_id, ResourceId};
use crate::models::{
    opt_text, shows_issue, IssueDb, IssueIn, IssueOut, ListIssuesQuery, OrganizationDb, SearchQuery,
};
use crate::status::{canonical_status, normalize_status};
use crate::storage::Lookup;
use crate::text::{trim, trimmed};
use crate::validate::{check_issue, issue_fault, Fault};
use vstd::prelude::*;
use vstd::string::*;

verus! {

/// An issue whose payload was accepted: what will be stored, but for the
/// identifier and the check that the parent exists.
#[derive(Debug, Clone, PartialEq, Eq)]
pub struct IssueDraft {
    pub organization_id: ResourceId,
    pub title: String,
    pub description: String,
    /// The canonical status.
    pub status: String,
    pub assignee_id: Option<ResourceId>,
    pub parent_issue_id: Option<ResourceId>,
}

/// The caller and the organization that a payload or a query names: the
/// credential is judged first; then an organization must be named,
/// and by an identifier.
pub open spec fn organization_target(
    credential: Credential,
    secret: Seq<char>,
    now: u64,
    organization_id: Option<Seq<char>>,
) -> Result<Target, Failure> {
    match authentication(credential, secret, now) {
        Err(f) => Err(f),
        Ok(caller) => match organization_id {
            None => Err(Failure::OrganizationIdRequired),
            Some(text) => match parse_id(text) {
                Some(id) => Ok(Target { caller, id }),
                None => Err(Failure::InvalidOrganizationId),
            },
        },
    }
}

/// The assignee that a payload names: nobody where the field is absent or
/// blank; else the trimmed field must be an identifier.
pub open spec fn assignee_outcome(assignee: Option<String>) -> Result<Option<ResourceId>, Failure> {
    match assignee {
        None => Ok(None),
        Some(s) => if trim(s@).len() == 0 {
            Ok(None)
        } else {
            match parse_id(trim(s@)) {
                Some(id) => Ok(Some(id)),
                None => Err(Failure::InvalidAssigneeId),
            }
        },
    }
}

/// The parent that a payload or a query names: none where the field is
/// absent; else the field must be an identifier.
pub open spec fn parent_outcome(parent: Option<String>) -> Result<Option<ResourceId>, Failure> {
    match parent {
        None => Ok(None),
        Some(s) => match parse_id(s@) {
            Some(id) => Ok(Some(id)),
            None => Err(Failure::InvalidParentIssueId),
        },
    }
}

/// What becomes of a payload for an issue of the organization `org`, of
/// which the caller is a member: the payload must be sound, its references
/// must be identifiers, and the assignee must be a member. The draft that
/// comes out carries the canonical status.
pub open spec fn draft_outcome_holds(
    org: OrganizationDb,
    body: IssueIn,
    r: Result<IssueDraft, Failure>,
) -> bool {
    match issue_fault(body) {
        Some(fault) => r == Err::<IssueDraft, Failure>(Failure::Invalid(fault)),
        None => match assignee_outcome(body.assignee_id) {
            Err(f) => r == Err::<IssueDraft, Failure>(f),
            Ok(assignee) => match parent_outcome(body.parent_issue_id) {
                Err(f) => r == Err::<IssueDraft, Failure>(f),
                Ok(parent) => if assignee matches Some(a) && !org.members().contains(a) {
                    r == Err::<IssueDraft, Failure>(Failure::AssigneeNotMember)
                } else {
                    r matches Ok(d) && d.organization_id == org.id && d.title@ == body.title@
                        && d.description@ == body.description@ && Some(d.status@)
                        == canonical_status(trim(body.status@)) && d.assignee_id == assignee
                        && d.parent_issue_id == parent
                },
            },
        },
    }
}

/// Creating an issue, second stage, as it should come out: membership
/// first, the payload after it.
pub open spec fn create_authorize_holds(
    target: Target,
    org: Lookup<OrganizationDb>,
    body: IssueIn,
    r: Result<IssueDraft, Failure>,
) -> bool {
    match authorization(Action::CreateIssue, target.caller, target.id, org) {
        Err(f) => r == Err::<IssueDraft, Failure>(f),
        Ok(o) => draft_outcome_holds(o, body, r),
    }
}

/// Updating an issue, second stage, as it should come out: membership in
/// the organization of the stored issue first, the payload after it; the
/// payload must name the organization that the issue belongs to.
pub open spec fn update_authorize_holds(
    caller: ResourceId,
    issue: IssueDb,
    org: Lookup<OrganizationDb>,
    body: IssueIn,
    r: Result<IssueDraft, Failure>,
) -> bool {
    match authorization(Action::UpdateIssue, caller, issue.organization_id, org) {
        Err(f) => r == Err::<IssueDraft, Failure>(f),
        Ok(o) => match issue_fault(body) {
            Some(fault) => r == Err::<IssueDraft, Failure>(Failure::Invalid(fault)),
            None => match parse_id(body.organization_id@) {
                None => r == Err::<IssueDraft, Failure>(Failure::InvalidOrganizationId),
                Some(named) => if named != issue.organization_id {
                    r == Err::<IssueDraft, Failure>(Failure::OrganizationMismatch)
                } else {
                    draft_outcome_holds(o, body, r)
                },
            },
        },
    }
}

/// Whether the parent that a draft names holds: storage answered with the
/// issue asked for, and it belongs to the organization of the draft.
pub open spec fn parent_check(draft: IssueDraft, parent: Lookup<IssueDb>) -> Result<(), Failure> {
    match draft.parent_issue_id {
        None => Ok(()),
        Some(pid) => match parent {
            Lookup::Failed => Err(Failure::Database),
            Lookup::Absent => Err(Failure::ParentNotInOrganization),
            Lookup::Found(p) => if p.id == pid && p.organization_id == draft.organization_id {
                Ok(())
            } else {
                Err(Failure::ParentNotInOrganization)
            },
        },
    }
}

/// The parent of `issue`, if it has one, is the issue that storage
/// answered with, and belongs to the same organization.
pub open spec fn parent_in_same_organization(issue: IssueDb, parent: Lookup<IssueDb>) -> bool {
    issue.parent_issue_id matches Some(pid) ==> parent matches Lookup::Found(p) && p.id == pid
        && p.organization_id == issue.organization_id
}

/// The last stage of creating or updating an issue, as it should come out.
pub open spec fn finish_holds(
    draft: IssueDraft,
    parent: Lookup<IssueDb>,
    id: ResourceId,
    r: Result<IssueDb, Failure>,
) -> bool {
    match parent_check(draft, parent) {
        Err(f) => r == Err::<IssueDb, Failure>(f),
        Ok(_) => r matches Ok(i) && i.id == id && i.organization_id == draft.organization_id
            && i.title == draft.title && i.description == draft.description && i.status
            == draft.status && i.assignee_id == draft.assignee_id && i.parent_issue_id
            == draft.parent_issue_id,
    }
}

/// An issue that comes out of the last stage has its parent, if it has
/// one, in its own organization; a draft whose parent is missing or
/// belongs to another organization does not come out.
pub proof fn lemma_parent_rule(
    draft: IssueDraft,
    parent: Lookup<IssueDb>,
    id: ResourceId,
    r: Result<IssueDb, Failure>,
)
    requires
        finish_holds(draft, parent, id, r),
    ensures
        r matches Ok(issue) ==> parent_in_same_organization(issue, parent),
        draft.parent_issue_id is Some ==> (r is Ok <==> parent_check(draft, parent) is Ok),
        draft.parent_issue_id is None ==> r is Ok,
{
}

/// An update that is accepted leaves the issue in its organization.
pub proof fn lemma_update_keeps_organization(
    caller: ResourceId,
    issue: IssueDb,
    org: Lookup<OrganizationDb>,
    body: IssueIn,
    r: Result<IssueDraft, Failure>,
)
    requires
        update_authorize_holds(caller, issue, org, body, r),
    ensures
        r matches Ok(draft) ==> draft.organization_id == issue.organization_id,
{
}

/// The issues among `issues` that belong to the organization `org_id` and,
/// where a parent is given, have that parent; in order.
pub open spec fn selected(org_id: ResourceId, parent: Option<ResourceId>, issues: Seq<IssueDb>) -> Seq<
    IssueDb,
> {
    issues.filter(
        |i: IssueDb|
            i.organization_id == org_id && (parent is Some ==> i.parent_issue_id == parent),
    )
}

/// The most issues that a search answers with; storage is asked for no more.
pub const SEARCH_LIMIT: usize = 50;

/// What a search begins with.
#[derive(Debug, Clone, PartialEq, Eq)]
pub enum SearchPlan {
    /// Nothing is searched for: the answer is the empty list.
    Nothing,
    /// The caller searches the issues of an organization for a text.
    Search { target: Target, text: String },
}

/// The text that a query searches for: the trimmed field, or nothing.
pub open spec fn search_text(query: SearchQuery) -> Seq<char> {
    match query.q {
        Some(q) => trim(q@),
        None => Seq::empty(),
    }
}

/// The first stage of a search, as it should come out: the credential is
/// judged first; a search for nothing needs no organization.
pub open spec fn search_begin_holds(
    credential: Credential,
    secret: Seq<char>,
    now: u64,
    query: SearchQuery,
    r: Result<SearchPlan, Failure>,
) -> bool {
    match authentication(credential, secret, now) {
        Err(f) => r == Err::<SearchPlan, Failure>(f),
        Ok(caller) => if search_text(query).len() == 0 {
            r == Ok::<SearchPlan, Failure>(SearchPlan::Nothing)
        } else {
            match organization_target(credential, secret, now, opt_text(query.organization_id)) {
                Err(f) => r == Err::<SearchPlan, Failure>(f),
                Ok(t) => r matches Ok(SearchPlan::Search { target, text }) && target == t
                    && text@ == search_text(query),
            }
        },
    }
}

fn read_organization(caller: ResourceId, organization_id: Option<&str>) -> (r: Result<
    Target,
    Failure,
>)
    ensures
        r == (match organization_id {
            None => Err::<Target, Failure>(Failure::OrganizationIdRequired),
            Some(text) => match parse_id(text@) {
                Some(id) => Ok::<Target, Failure>(Target { caller, id }),
                None => Err::<Target, Failure>(Failure::InvalidOrganizationId),
            },
        }),
{
    match organization_id {
        None => Err(Failure::OrganizationIdRequired),
        Some(text) => match ResourceId::parse_str(text) {
            Some(id) => Ok(Target { caller, id }),
            None => Err(Failure::InvalidOrganizationId),
        },
    }
}

fn read_assignee(assignee: &Option<String>) -> (r: Result<Option<ResourceId>, Failure>)
    ensures
        r == assignee_outcome(*assignee),
{
    match assignee {
        None => Ok(None),
        Some(s) => {
            let t = trimmed(s.as_str());
            if t.is_empty() {
                Ok(None)
            } else {
                match ResourceId::parse_str(t) {
                    Some(id) => Ok(Some(id)),
                    None => Err(Failure::InvalidAssigneeId),
                }
            }
        },
    }
}

fn read_parent(parent: &Option<String>) -> (r: Result<Option<ResourceId>, Failure>)
    ensures
        r == parent_outcome(*parent),
{
    match parent {
        None => Ok(None),
        Some(s) => match ResourceId::parse_str(s.as_str()) {
            Some(id) => Ok(Some(id)),
            None => Err(Failure::InvalidParentIssueId),
        },
    }
}

/// Drafts the issue that a payload describes, for an organization of which
/// the caller is a member.
pub fn draft_issue(org: &OrganizationDb, body: &IssueIn) -> (r: Result<IssueDraft, Failure>)
    ensures
        draft_outcome_holds(*org, *body, r),
{
    if let Some(fault) = check_issue(body) {
        return Err(Failure::Invalid(fault));
    }
    let assignee = match read_assignee(&body.assignee_id) {
        Ok(a) => a,
        Err(f) => {
            return Err(f);
        },
    };
    let parent = match read_parent(&body.parent_issue_id) {
        Ok(p) => p,
        Err(f) => {
            return Err(f);
        },
    };
    if let Some(a) = assignee {
        if !org.is_member(a) {
            return Err(Failure::AssigneeNotMember);
        }
    }
    let status = match normalize_status(trimmed(body.status.as_str())) {
        Some(s) => String::from_str(s),
        None => {
            return Err(Failure::Invalid(Fault::InvalidStatus));
        },
    };
    Ok(
        IssueDraft {
            organization_id: org.id,
            title: body.title.clone(),
            description: body.description.clone(),
            status,
            assignee_id: assignee,
            parent_issue_id: parent,
        },
    )
}

/// Creating an issue, first stage: who calls, and for which organization.
pub fn issues_create_begin(credential: &Credential, jwt_secret: &str, now: u64, body: &IssueIn) -> (r:
    Result<Target, Failure>)
    ensures
        r == organization_target(*credential, jwt_secret@, now, Some(body.organization_id@)),
{
    let caller = match require_user_id_at(credential, jwt_secret, now) {
        Ok(c) => c,
        Err(f) => {
            return Err(f);
        },
    };
    read_organization(caller, Some(body.organization_id.as_str()))
}

/// Creating an issue, second stage: the caller must be a member of the
/// organization; then the payload is drafted.
pub fn issues_create_authorize(target: Target, org: Lookup<OrganizationDb>, body: &IssueIn) -> (r:
    Result<IssueDraft, Failure>)
    ensures
        create_authorize_holds(target, org, *body, r),
{
    let o = match authorize(Action::CreateIssue, target.caller, target.id, org) {
        Ok(o) => o,
        Err(f) => {
            return Err(f);
        },
    };
    draft_issue(&o, body)
}

/// Creating an issue, last stage: a parent, if named, must be an issue of
/// the same organization. Where the draft names no parent, what storage
/// answered is not looked at.
pub fn issues_create_finish(draft: IssueDraft, parent: Lookup<IssueDb>, id: ResourceId) -> (r:
    Result<IssueDb, Failure>)
    ensures
        finish_holds(draft, parent, id, r),
        r matches Ok(issue) ==> parent_in_same_organization(issue, parent),
{
    if let Some(pid) = draft.parent_issue_id {
        match parent {
            Lookup::Failed => {
                return Err(Failure::Database);
            },
            Lookup::Absent => {
                return Err(Failure::ParentNotInOrganization);
            },
            Lookup::Found(p) => {
                if !(p.id == pid && p.organization_id == draft.organization_id) {
                    return Err(Failure::ParentNotInOrganization);
                }
            },
        }
    }
    Ok(
        IssueDb {
            id,
            organization_id: draft.organization_id,
            title: draft.title,
            description: draft.description,
            status: draft.status,
            assignee_id: draft.assignee_id,
            parent_issue_id: draft.parent_issue_id,
        },
    )
}

/// Updating an issue, second stage: the caller must be a member of the
/// organization that the stored issue belongs to; then the payload is
/// drafted, and it must name that same organization.
///
/// That an update cannot move an issue to another organization is a
/// choice. An issue may be the parent of others, and those stay where they
/// are; a parent that moved away would leave them with a parent in another
/// organization. Nothing here knows whether an issue has children, so
/// every move is refused, with or without them.
pub fn issues_update_authorize(
    caller: ResourceId,
    issue: &IssueDb,
    org: Lookup<OrganizationDb>,
    body: &IssueIn,
) -> (r: Result<IssueDraft, Failure>)
    ensures
        update_authorize_holds(caller, *issue, org, *body, r),
{
    let o = match authorize(Action::UpdateIssue, caller, issue.organization_id, org) {
        Ok(o) => o,
        Err(f) => {
            return Err(f);
        },
    };
    if let Some(fault) = check_issue(body) {
        return Err(Failure::Invalid(fault));
    }
    match ResourceId::parse_str(body.organization_id.as_str()) {
        None => {
            return Err(Failure::InvalidOrganizationId);
        },
        Some(named) => {
            if named != issue.organization_id {
                return Err(Failure::OrganizationMismatch);
            }
        },
    }
    draft_issue(&o, body)
}

/// Updating an issue, last stage: as for a new issue, with the identifier
/// of the issue that is updated.
pub fn issues_update_finish(draft: IssueDraft, parent: Lookup<IssueDb>, issue_id: ResourceId) -> (r:
    Result<IssueDb, Failure>)
    ensures
        finish_holds(draft, parent, issue_id, r),
        r matches Ok(issue) ==> parent_in_same_organization(issue, parent),
{
    issues_create_finish(draft, parent, issue_id)
}

/// Showing one issue: to the members of its organization.
pub fn issues_get_by_id_decide(caller: ResourceId, issue: &IssueDb, org: Lookup<OrganizationDb>) -> (r:
    Result<IssueOut, Failure>)
    ensures
        match authorization(Action::GetIssue, caller, issue.organization_id, org) {
            Err(f) => r == Err::<IssueOut, Failure>(f),
            Ok(_) => r matches Ok(out) && shows_issue(out, *issue),
        },
{
    match authorize(Action::GetIssue, caller, issue.organization_id, org) {
        Ok(_) => Ok(IssueOut::of(issue)),
        Err(f) => Err(f),
    }
}

/// Deleting an issue: by the members of its organization. What comes out
/// is the issue to delete.
pub fn issues_delete_authorize(caller: ResourceId, issue: &IssueDb, org: Lookup<OrganizationDb>) -> (r:
    Result<ResourceId, Failure>)
    ensures
        match authorization(Action::DeleteIssue, caller, issue.organization_id, org) {
            Err(f) => r == Err::<ResourceId, Failure>(f),
            Ok(_) => r == Ok::<ResourceId, Failure>(issue.id),
        },
{
    match authorize(Action::DeleteIssue, caller, issue.organization_id, org) {
        Ok(_) => Ok(issue.id),
        Err(f) => Err(f),
    }
}

/// Listing issues, first stage: who calls, and for which organization.
pub fn issues_list_begin(
    credential: &Credential,
    jwt_secret: &str,
    now: u64,
    query: &ListIssuesQuery,
) -> (r: Result<Target, Failure>)
    ensures
        r == organization_target(*credential, jwt_secret@, now, opt_text(query.organization_id)),
{
    let caller = match require_user_id_at(credential, jwt_secret, now) {
        Ok(c) => c,
        Err(f) => {
            return Err(f);
        },
    };
    match &query.organization_id {
        Some(text) => read_organization(caller, Some(text.as_str())),
        None => read_organization(caller, None),
    }
}

/// Listing issues, second stage: the caller must be a member; then the
/// parent to list under, if the query names one, must be an identifier.
pub fn issues_list_authorize(target: Target, org: Lookup<OrganizationDb>, query: &ListIssuesQuery) -> (r:
    Result<Option<ResourceId>, Failure>)
    ensures
        match authorization(Action::ListIssues, target.caller, target.id, org) {
            Err(f) => r == Err::<Option<ResourceId>, Failure>(f),
            Ok(_) => r == parent_outcome(query.parent_issue_id),
        },
{
    match authorize(Action::ListIssues, target.caller, target.id, org) {
        Ok(_) => read_parent(&query.parent_issue_id),
        Err(f) => Err(f),
    }
}

/// Listing issues, last stage: of what storage gave, the caller is shown
/// the issues of the organization, under the parent if one is given, in
/// order, and no others.
pub fn issues_list_select(org_id: ResourceId, parent: Option<ResourceId>, issues: &Vec<IssueDb>) -> (out:
    Vec<IssueOut>)
    ensures
        out@.len() == selected(org_id, parent, issues@).len(),
        forall|i: int|
            0 <= i < out@.len() ==> shows_issue(
                #[trigger] out@[i],
                selected(org_id, parent, issues@)[i],
            ),
{
    let mut out: Vec<IssueOut> = Vec::new();
    let mut i: usize = 0;
    proof {
        reveal(Seq::filter);
        assert(issues@.take(0) =~= Seq::<IssueDb>::empty());
    }
    while i < issues.len()
        invariant
            i <= issues@.len(),
            out@.len() == selected(org_id, parent, issues@.take(i as int)).len(),
            forall|j: int|
                0 <= j < out@.len() ==> shows_issue(
                    #[trigger] out@[j],
                    selected(org_id, parent, issues@.take(i as int))[j],
                ),
        decreases issues@.len() - i,
    {
        proof {
            reveal(Seq::filter);
            assert(issues@.take(i + 1).drop_last() =~= issues@.take(i as int));
            assert(issues@.take(i + 1).last() == issues@[i as int]);
        }
        let issue = &issues[i];
        let under_parent = match parent {
            None => true,
            Some(p) => match issue.parent_issue_id {
                Some(q) => q == p,
                None => false,
            },
        };
        if issue.organization_id == org_id && under_parent {
            out.push(IssueOut::of(issue));
        }
        i += 1;
    }
    assert(issues@.take(issues@.len() as int) =~= issues@);
    out
}

/// The first `limit` elements of `s`, or all of `s` where it has fewer.
pub open spec fn capped<T>(s: Seq<T>, limit: nat) -> Seq<T> {
    if s.len() <= limit {
        s
    } else {
        s.subrange(0, limit as int)
    }
}

/// Searching issues, last stage: of what storage gave, the caller is shown
/// the issues of the organization, in order, and no more of them than a
/// search answers with.
pub fn issues_search_select(org_id: ResourceId, issues: &Vec<IssueDb>) -> (out: Vec<IssueOut>)
    ensures
        out@.len() == capped(selected(org_id, None, issues@), SEARCH_LIMIT as nat).len(),
        out@.len() <= SEARCH_LIMIT,
        forall|i: int|
            0 <= i < out@.len() ==> shows_issue(
                #[trigger] out@[i],
                capped(selected(org_id, None, issues@), SEARCH_LIMIT as nat)[i],
            ),
{
    let mut out = issues_list_select(org_id, None, issues);
    out.truncate(SEARCH_LIMIT);
    out
}

/// Searching issues, first stage: who calls; a search for nothing ends
/// here with an empty answer; any other needs an organization.
pub fn issues_search_begin(
    credential: &Credential,
    jwt_secret: &str,
    now: u64,
    query: &SearchQuery,
) -> (r: Result<SearchPlan, Failure>)
    ensures
        search_begin_holds(*credential, jwt_secret@, now, *query, r),
{
    let caller = match require_user_id_at(credential, jwt_secret, now) {
        Ok(c) => c,
        Err(f) => {
            return Err(f);
        },
    };
    let text = match &query.q {
        Some(q) => String::from_str(trimmed(q.as_str())),
        None => String::new(),
    };
    if text.as_str().is_empty() {
        return Ok(SearchPlan::Nothing);
    }
    let target = match &query.organization_id {
        Some(t) => read_organization(caller, Some(t.as_str())),
        None => read_organization(caller, None),
    };
    match target {
        Ok(target) => Ok(SearchPlan::Search { target, text }),
        Err(f) => Err(f),
    }
}

} // verus!
