//! The tracker as a whole. The decisions of this library are taken one
//! request at a time, on what storage answers; here they are put together.
//! A world holds the organizations and issues of one moment, and each
//! accepted request leads from one world to the next. A world is in order
//! when its organizations list their owners and have keys of their own,
//! and when issue and parent belong to one organization. Every accepted
//! request leaves a world in order: that is what this module proves.

use crate::access::{authorization, Action};
use crate::failure::Failure;
use crate::ident::ResourceId;
use crate::issues::{finish_holds, update_authorize_holds, IssueDraft};
use crate::models::{IssueDb, IssueIn, OrganizationDb, UserDb};
use crate::organizations::{add_member_finish_holds, create_finish_holds, NewOrganization};
use crate::storage::Lookup;
use vstd::prelude::*;

verus! {

/// The records of one moment, and the identifiers handed out so far.
pub struct World {
    pub organizations: Map<ResourceId, OrganizationDb>,
    pub issues: Map<ResourceId, IssueDb>,
    pub used: Set<ResourceId>,
}

impl World {
    /// What storage answers when asked for the organization `id`.
    pub open spec fn organization(self, id: ResourceId) -> Lookup<OrganizationDb> {
        if self.organizations.dom().contains(id) {
            Lookup::Found(self.organizations[id])
        } else {
            Lookup::Absent
        }
    }

    /// What storage answers when asked for the issue `id`.
    pub open spec fn issue(self, id: ResourceId) -> Lookup<IssueDb> {
        if self.issues.dom().contains(id) {
            Lookup::Found(self.issues[id])
        } else {
            Lookup::Absent
        }
    }

    /// What storage answers when asked for the parent that a draft names.
    pub open spec fn parent_of(self, draft: IssueDraft) -> Lookup<IssueDb> {
        match draft.parent_issue_id {
            Some(p) => self.issue(p),
            None => Lookup::Absent,
        }
    }

    /// Some organization has the key.
    pub open spec fn key_taken(self, key: Seq<char>) -> bool {
        exists|id: ResourceId|
            #[trigger] self.organizations.dom().contains(id) && self.organizations[id].key@ == key
    }

    /// An answer that storage can give when asked for an organization with
    /// the key: one that has it, or none where no organization has it.
    pub open spec fn answers_key(self, key: Seq<char>, answer: Lookup<OrganizationDb>) -> bool {
        match answer {
            Lookup::Found(o) => self.organizations.dom().contains(o.id) && self.organizations[o.id]
                == o && o.key@ == key,
            Lookup::Absent => !self.key_taken(key),
            Lookup::Failed => true,
        }
    }

    /// Every organization is stored under its identifier and lists its
    /// owner, nobody twice.
    pub open spec fn organizations_in_order(self) -> bool {
        forall|id: ResourceId| #[trigger]
            self.organizations.dom().contains(id) ==> self.organizations[id].id == id
                && self.organizations[id].well_formed() && self.used.contains(id)
    }

    /// No two organizations have the same key.
    pub open spec fn keys_in_order(self) -> bool {
        forall|a: ResourceId, b: ResourceId|
            #![trigger self.organizations.dom().contains(a), self.organizations.dom().contains(b)]
            self.organizations.dom().contains(a) && self.organizations.dom().contains(b) && a != b
                ==> self.organizations[a].key@ != self.organizations[b].key@
    }

    /// Every issue is stored under its identifier and belongs to an
    /// organization that exists; its parent, where it has one that
    /// exists, belongs to the same organization.
    pub open spec fn issues_in_order(self) -> bool {
        forall|id: ResourceId| #[trigger]
            self.issues.dom().contains(id) ==> {
                let i = self.issues[id];
                &&& i.id == id
                &&& self.used.contains(id)
                &&& self.organizations.dom().contains(i.organization_id)
                &&& i.parent_issue_id matches Some(p) ==> self.used.contains(p) && (
                self.issues.dom().contains(p) ==> self.issues[p].organization_id
                    == i.organization_id)
            }
    }

    /// The world is in order.
    pub open spec fn in_order(self) -> bool {
        &&& self.organizations_in_order()
        &&& self.keys_in_order()
        &&& self.issues_in_order()
    }

    /// The world with one more organization.
    pub open spec fn with_organization(self, o: OrganizationDb) -> World {
        World {
            organizations: self.organizations.insert(o.id, o),
            issues: self.issues,
            used: self.used.insert(o.id),
        }
    }

    /// The world with one more issue, or with an issue in a new state.
    pub open spec fn with_issue(self, i: IssueDb) -> World {
        World {
            organizations: self.organizations,
            issues: self.issues.insert(i.id, i),
            used: self.used.insert(i.id),
        }
    }

    /// The world without the issue `id`.
    pub open spec fn without_issue(self, id: ResourceId) -> World {
        World {
            organizations: self.organizations,
            issues: self.issues.remove(id),
            used: self.used,
        }
    }

    /// The world without the organization `id` and without its issues.
    pub open spec fn without_organization(self, id: ResourceId) -> World {
        World {
            organizations: self.organizations.remove(id),
            issues: Map::new(
                |i: ResourceId|
                    self.issues.dom().contains(i) && self.issues[i].organization_id != id,
                |i: ResourceId| self.issues[i],
            ),
            used: self.used,
        }
    }
}

/// The world without records is in order.
pub proof fn lemma_empty_world_in_order()
    ensures
        (World { organizations: Map::empty(), issues: Map::empty(), used: Set::empty() }).in_order(),
{
}

/// In a world in order, the owner of every organization is a member of it,
/// and every issue whose parent exists belongs to the organization of its
/// parent.
pub proof fn lemma_order(w: World, org: ResourceId, issue: ResourceId)
    requires
        w.in_order(),
    ensures
        w.organizations.dom().contains(org) ==> w.organizations[org].members().contains(
            w.organizations[org].owner_id,
        ),
        w.issues.dom().contains(issue) ==> (w.issues[issue].parent_issue_id matches Some(p)
            ==> (w.issue(p) matches Lookup::Found(parent) ==> parent.organization_id
            == w.issues[issue].organization_id)),
{
}

/// Organizations stay in order where none is added or changed and no
/// identifier is forgotten.
proof fn lemma_organizations_kept(w: World, v: World)
    requires
        w.organizations_in_order(),
        w.keys_in_order(),
        forall|x: ResourceId| #[trigger]
            v.organizations.dom().contains(x) ==> w.organizations.dom().contains(x)
                && v.organizations[x] == w.organizations[x],
        forall|x: ResourceId| w.used.contains(x) ==> #[trigger] v.used.contains(x),
    ensures
        v.organizations_in_order(),
        v.keys_in_order(),
{
    assert forall|x: ResourceId| #[trigger]
        v.organizations.dom().contains(x) implies v.organizations[x].id == x
        && v.organizations[x].well_formed() && v.used.contains(x) by {
        assert(w.organizations.dom().contains(x));
    }
    assert forall|a: ResourceId, b: ResourceId|
        v.organizations.dom().contains(a) && v.organizations.dom().contains(b) && a
            != b implies v.organizations[a].key@ != v.organizations[b].key@ by {
        assert(w.organizations.dom().contains(a));
        assert(w.organizations.dom().contains(b));
    }
}

/// Organizations stay in order where one is stored that lists its owner
/// and either is new, under a fresh identifier and with a key that nobody
/// has, or takes the place of the one with its identifier and keeps its key.
proof fn lemma_organization_stored(w: World, o: OrganizationDb)
    requires
        w.organizations_in_order(),
        w.keys_in_order(),
        o.well_formed(),
        (!w.used.contains(o.id) && !w.key_taken(o.key@)) || (w.organizations.dom().contains(o.id)
            && w.organizations[o.id].key@ == o.key@),
    ensures
        w.with_organization(o).organizations_in_order(),
        w.with_organization(o).keys_in_order(),
{
    let v = w.with_organization(o);
    assert forall|x: ResourceId| #[trigger]
        v.organizations.dom().contains(x) implies v.organizations[x].id == x
        && v.organizations[x].well_formed() && v.used.contains(x) by {
        if x != o.id {
            assert(w.organizations.dom().contains(x));
        }
    }
    assert forall|a: ResourceId, b: ResourceId|
        v.organizations.dom().contains(a) && v.organizations.dom().contains(b) && a
            != b implies v.organizations[a].key@ != v.organizations[b].key@ by {
        if a != o.id {
            assert(w.organizations.dom().contains(a));
        }
        if b != o.id {
            assert(w.organizations.dom().contains(b));
        }
    }
}

/// Issues stay in order where none is added or changed, the organizations
/// of those that stay are still there, and no identifier is forgotten.
proof fn lemma_issues_kept(w: World, v: World)
    requires
        w.issues_in_order(),
        forall|x: ResourceId| #[trigger]
            v.issues.dom().contains(x) ==> w.issues.dom().contains(x) && v.issues[x]
                == w.issues[x] && v.organizations.dom().contains(w.issues[x].organization_id),
        forall|x: ResourceId| w.used.contains(x) ==> #[trigger] v.used.contains(x),
    ensures
        v.issues_in_order(),
{
    assert forall|x: ResourceId| #[trigger] v.issues.dom().contains(x) implies {
        let i = v.issues[x];
        &&& i.id == x
        &&& v.used.contains(x)
        &&& v.organizations.dom().contains(i.organization_id)
        &&& i.parent_issue_id matches Some(p) ==> v.used.contains(p) && (
        v.issues.dom().contains(p) ==> v.issues[p].organization_id == i.organization_id)
    } by {
        assert(w.issues.dom().contains(x));
        if let Some(p) = v.issues[x].parent_issue_id {
            if v.issues.dom().contains(p) {
                assert(w.issues.dom().contains(p));
            }
        }
    }
}

/// Storing an issue leaves a world in order if the issue belongs to an
/// organization that exists, has its parent, where it names one, in the
/// world and in that organization, and either is new under a fresh
/// identifier or takes the place of an issue of the same organization.
proof fn lemma_issue_stored(w: World, issue: IssueDb)
    requires
        w.in_order(),
        w.organizations.dom().contains(issue.organization_id),
        issue.parent_issue_id matches Some(p) ==> w.issues.dom().contains(p)
            && w.issues[p].organization_id == issue.organization_id,
        !w.used.contains(issue.id) || (w.issues.dom().contains(issue.id)
            && w.issues[issue.id].organization_id == issue.organization_id),
    ensures
        w.with_issue(issue).in_order(),
{
    let v = w.with_issue(issue);
    lemma_organizations_kept(w, v);
    assert forall|x: ResourceId| #[trigger] v.issues.dom().contains(x) implies {
        let i = v.issues[x];
        &&& i.id == x
        &&& v.used.contains(x)
        &&& v.organizations.dom().contains(i.organization_id)
        &&& i.parent_issue_id matches Some(p) ==> v.used.contains(p) && (
        v.issues.dom().contains(p) ==> v.issues[p].organization_id == i.organization_id)
    } by {
        if x != issue.id {
            assert(w.issues.dom().contains(x));
            if let Some(p) = w.issues[x].parent_issue_id {
                if p != issue.id && v.issues.dom().contains(p) {
                    assert(w.issues.dom().contains(p));
                }
            }
        } else {
            if let Some(p) = issue.parent_issue_id {
                assert(w.issues.dom().contains(p));
            }
        }
    }
}

/// Creating an organization under a fresh identifier leaves the world in
/// order: the new organization lists its owner, and its key is its own.
pub proof fn lemma_create_organization(
    w: World,
    new: NewOrganization,
    existing: Lookup<OrganizationDb>,
    id: ResourceId,
    r: Result<OrganizationDb, Failure>,
)
    requires
        w.in_order(),
        !w.used.contains(id),
        w.answers_key(new.key@, existing),
        create_finish_holds(new, existing, id, r),
    ensures
        r matches Ok(o) ==> w.with_organization(o).in_order() && !w.key_taken(o.key@),
        w.key_taken(new.key@) && !(existing is Failed) ==> r == Err::<OrganizationDb, Failure>(
            Failure::DuplicateKey,
        ),
{
    if let Ok(o) = r {
        lemma_organization_stored(w, o);
        lemma_issues_kept(w, w.with_organization(o));
    }
}

/// Adding a member leaves the world in order.
pub proof fn lemma_add_member(
    w: World,
    org: OrganizationDb,
    user: Lookup<UserDb>,
    r: Result<OrganizationDb, Failure>,
)
    requires
        w.in_order(),
        w.organization(org.id) == Lookup::Found(org),
        add_member_finish_holds(org, user, r),
    ensures
        r matches Ok(o) ==> w.with_organization(o).in_order() && (user matches Lookup::Found(u)
            && o.members().contains(u.id)),
{
    if let Ok(o) = r {
        assert(w.organizations.dom().contains(org.id));
        lemma_organization_stored(w, o);
        lemma_issues_kept(w, w.with_organization(o));
    }
}

/// Deleting an organization together with its issues leaves the world in order.
pub proof fn lemma_delete_organization(w: World, id: ResourceId)
    requires
        w.in_order(),
    ensures
        w.without_organization(id).in_order(),
        forall|i: ResourceId| #[trigger]
            w.without_organization(id).issues.dom().contains(i) ==> w.issues[i].organization_id
                != id,
{
    let v = w.without_organization(id);
    lemma_organizations_kept(w, v);
    lemma_issues_kept(w, v);
}

/// Creating an issue under a fresh identifier, in an organization to which
/// the caller was admitted, leaves the world in order.
pub proof fn lemma_create_issue(
    w: World,
    caller: ResourceId,
    draft: IssueDraft,
    id: ResourceId,
    r: Result<IssueDb, Failure>,
)
    requires
        w.in_order(),
        !w.used.contains(id),
        authorization(
            Action::CreateIssue,
            caller,
            draft.organization_id,
            w.organization(draft.organization_id),
        ) is Ok,
        finish_holds(draft, w.parent_of(draft), id, r),
    ensures
        r matches Ok(issue) ==> w.with_issue(issue).in_order(),
{
    if let Ok(issue) = r {
        lemma_issue_stored(w, issue);
    }
}

/// Updating an issue with a draft that was accepted for it leaves the
/// world in order: the issue stays in its organization.
pub proof fn lemma_update_issue(
    w: World,
    caller: ResourceId,
    stored: IssueDb,
    body: IssueIn,
    drafted: Result<IssueDraft, Failure>,
    r: Result<IssueDb, Failure>,
)
    requires
        w.in_order(),
        w.issue(stored.id) == Lookup::Found(stored),
        update_authorize_holds(
            caller,
            stored,
            w.organization(stored.organization_id),
            body,
            drafted,
        ),
        drafted matches Ok(draft) && finish_holds(draft, w.parent_of(draft), stored.id, r),
    ensures
        r matches Ok(issue) ==> w.with_issue(issue).in_order() && issue.organization_id
            == stored.organization_id,
{
    if let Ok(issue) = r {
        assert(w.issues.dom().contains(stored.id));
        lemma_issue_stored(w, issue);
    }
}

/// Deleting an issue leaves the world in order.
pub proof fn lemma_delete_issue(w: World, id: ResourceId)
    requires
        w.in_order(),
    ensures
        w.without_issue(id).in_order(),
{
    let v = w.without_issue(id);
    lemma_organizations_kept(w, v);
    lemma_issues_kept(w, v);
}

} // verus!
