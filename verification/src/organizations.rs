//! The decisions of the organization endpoints. Storage does the lookups
//! and the writes; each function here takes what storage answered and says
//! how the request goes on. The order is fixed: who calls, may they, is the
//! payload sound, do its references hold, and only then the change.

use crate::access::{authorization, authorize, Action, Target};
use crate::auth::{authentication, require_user_id_at, Credential};
use crate::failure::Failure;
use crate::ident::ResourceId;
use crate::models::{
    shows_organization, shows_user, OrganizationAddMemberIn, OrganizationCreateIn,
    OrganizationDb, OrganizationOut, UserDb, UserOut,
};
use crate::storage::Lookup;
use crate::text::{spec_to_lowercase, spec_to_uppercase, to_lowercase, to_uppercase, trim, trimmed};
use crate::validate::{check_member_email, check_org, member_email_fault, org_fault};
use vstd::prelude::*;

verus! {

/// An organization that passed the structural checks and waits for the
/// check that its key is free.
#[derive(Debug, Clone, PartialEq, Eq)]
pub struct NewOrganization {
    /// The caller, who will own the organization.
    pub owner: ResourceId,
    /// The name as given.
    pub name: String,
    /// The key in upper case, as it is stored and compared.
    pub key: String,
}

/// The first stage of creating an organization, as it should come out.
pub open spec fn create_check_holds(
    credential: Credential,
    secret: Seq<char>,
    now: u64,
    body: OrganizationCreateIn,
    r: Result<NewOrganization, Failure>,
) -> bool {
    match authentication(credential, secret, now) {
        Err(f) => r == Err::<NewOrganization, Failure>(f),
        Ok(caller) => match org_fault(body) {
            Some(fault) => r == Err::<NewOrganization, Failure>(Failure::Invalid(fault)),
            None => r matches Ok(n) && n.owner == caller && n.name@ == body.name@ && n.key@
                == spec_to_uppercase(body.key@),
        },
    }
}

/// Creating an organization, first stage: any authenticated user may; the
/// payload must be sound. The key comes out in upper case, under which
/// storage is then asked for an organization that has it already.
pub fn organizations_create_check(
    credential: &Credential,
    jwt_secret: &str,
    now: u64,
    body: &OrganizationCreateIn,
) -> (r: Result<NewOrganization, Failure>)
    ensures
        create_check_holds(*credential, jwt_secret@, now, *body, r),
{
    let owner = match require_user_id_at(credential, jwt_secret, now) {
        Ok(c) => c,
        Err(f) => {
            return Err(f);
        },
    };
    if let Some(fault) = check_org(body) {
        return Err(Failure::Invalid(fault));
    }
    Ok(NewOrganization { owner, name: body.name.clone(), key: to_uppercase(body.key.as_str()) })
}

/// The second stage of creating an organization, as it should come out.
pub open spec fn create_finish_holds(
    new: NewOrganization,
    existing: Lookup<OrganizationDb>,
    id: ResourceId,
    r: Result<OrganizationDb, Failure>,
) -> bool {
    match existing {
        Lookup::Failed => r == Err::<OrganizationDb, Failure>(Failure::Database),
        Lookup::Found(_) => r == Err::<OrganizationDb, Failure>(Failure::DuplicateKey),
        Lookup::Absent => r matches Ok(o) && o.id == id && o.name == new.name && o.key == new.key
            && o.owner_id == new.owner && o.member_ids@ == seq![new.owner] && o.well_formed(),
    }
}

/// Creating an organization, second stage: the key must be free. The new
/// organization has the caller as owner and as its only member.
pub fn organizations_create_finish(
    new: NewOrganization,
    existing: Lookup<OrganizationDb>,
    id: ResourceId,
) -> (r: Result<OrganizationDb, Failure>)
    ensures
        create_finish_holds(new, existing, id, r),
{
    match existing {
        Lookup::Failed => Err(Failure::Database),
        Lookup::Found(_) => Err(Failure::DuplicateKey),
        Lookup::Absent => Ok(OrganizationDb::new(id, new.name, new.key, new.owner)),
    }
}

/// The email under which the member to add is looked up: trimmed, in lower case.
pub open spec fn member_email(body: OrganizationAddMemberIn) -> Seq<char> {
    spec_to_lowercase(trim(body.email@))
}

/// Adding a member, second stage, as it should come out: the policy
/// first, the email after it.
pub open spec fn add_member_authorize_holds(
    target: Target,
    org: Lookup<OrganizationDb>,
    body: OrganizationAddMemberIn,
    r: Result<(OrganizationDb, String), Failure>,
) -> bool {
    match authorization(Action::AddMember, target.caller, target.id, org) {
        Err(f) => r == Err::<(OrganizationDb, String), Failure>(f),
        Ok(o) => match member_email_fault(member_email(body)) {
            Some(fault) => r == Err::<(OrganizationDb, String), Failure>(Failure::Invalid(fault)),
            None => r matches Ok(p) && p.0 == o && p.1@ == member_email(body),
        },
    }
}

/// Adding a member, second stage: the organization must exist, the caller
/// must own it, and the email must be one. What comes out is the
/// organization and the email under which the user is then looked up.
pub fn organizations_add_member_authorize(
    target: Target,
    org: Lookup<OrganizationDb>,
    body: &OrganizationAddMemberIn,
) -> (r: Result<(OrganizationDb, String), Failure>)
    ensures
        add_member_authorize_holds(target, org, *body, r),
{
    let o = match authorize(Action::AddMember, target.caller, target.id, org) {
        Ok(o) => o,
        Err(f) => {
            return Err(f);
        },
    };
    let email = to_lowercase(trimmed(body.email.as_str()));
    if let Some(fault) = check_member_email(email.as_str()) {
        return Err(Failure::Invalid(fault));
    }
    Ok((o, email))
}

/// The last stage of adding a member, as it should come out.
pub open spec fn add_member_finish_holds(
    org: OrganizationDb,
    user: Lookup<UserDb>,
    r: Result<OrganizationDb, Failure>,
) -> bool {
    match user {
        Lookup::Failed => r == Err::<OrganizationDb, Failure>(Failure::Database),
        Lookup::Absent => r == Err::<OrganizationDb, Failure>(Failure::UnknownUser),
        Lookup::Found(u) => r matches Ok(o) && o.id == org.id && o.name == org.name && o.key
            == org.key && o.owner_id == org.owner_id && o.members() == org.members().insert(u.id)
            && o.member_ids@ == (if org.members().contains(u.id) {
            org.member_ids@
        } else {
            org.member_ids@.push(u.id)
        }) && (org.well_formed() ==> o.well_formed()),
    }
}

/// Adding a member, last stage: the user must exist. The organization
/// comes out with the user listed, once.
pub fn organizations_add_member_finish(org: OrganizationDb, user: Lookup<UserDb>) -> (r: Result<
    OrganizationDb,
    Failure,
>)
    ensures
        add_member_finish_holds(org, user, r),
{
    match user {
        Lookup::Failed => Err(Failure::Database),
        Lookup::Absent => Err(Failure::UnknownUser),
        Lookup::Found(u) => {
            let mut o = org;
            o.add_member(u.id);
            Ok(o)
        },
    }
}

/// Showing one organization: only to its members. To anyone else the
/// organization is not found, whether it exists or not.
pub fn organizations_get_by_id_decide(target: Target, org: Lookup<OrganizationDb>) -> (r: Result<
    OrganizationOut,
    Failure,
>)
    ensures
        match authorization(Action::GetOrganization, target.caller, target.id, org) {
            Err(f) => r == Err::<OrganizationOut, Failure>(f),
            Ok(o) => r matches Ok(out) && shows_organization(out, o),
        },
{
    match authorize(Action::GetOrganization, target.caller, target.id, org) {
        Ok(o) => Ok(OrganizationOut::of(&o)),
        Err(f) => Err(f),
    }
}

/// The organizations among `orgs` that list `caller` as a member, in order.
pub open spec fn visible_to(caller: ResourceId, orgs: Seq<OrganizationDb>) -> Seq<OrganizationDb> {
    orgs.filter(|o: OrganizationDb| o.members().contains(caller))
}

/// Listing organizations: the caller sees those that list them as a
/// member, in the order in which storage gave them, and no others.
pub fn organizations_list_visible(caller: ResourceId, orgs: &Vec<OrganizationDb>) -> (out: Vec<
    OrganizationOut,
>)
    ensures
        out@.len() == visible_to(caller, orgs@).len(),
        forall|i: int|
            0 <= i < out@.len() ==> shows_organization(
                #[trigger] out@[i],
                visible_to(caller, orgs@)[i],
            ),
{
    let mut out: Vec<OrganizationOut> = Vec::new();
    let mut i: usize = 0;
    proof {
        reveal(Seq::filter);
        assert(orgs@.take(0) =~= Seq::<OrganizationDb>::empty());
    }
    while i < orgs.len()
        invariant
            i <= orgs@.len(),
            out@.len() == visible_to(caller, orgs@.take(i as int)).len(),
            forall|j: int|
                0 <= j < out@.len() ==> shows_organization(
                    #[trigger] out@[j],
                    visible_to(caller, orgs@.take(i as int))[j],
                ),
        decreases orgs@.len() - i,
    {
        proof {
            reveal(Seq::filter);
            assert(orgs@.take(i + 1).drop_last() =~= orgs@.take(i as int));
            assert(orgs@.take(i + 1).last() == orgs@[i as int]);
        }
        if orgs[i].is_member(caller) {
            out.push(OrganizationOut::of(&orgs[i]));
        }
        i += 1;
    }
    assert(orgs@.take(orgs@.len() as int) =~= orgs@);
    out
}

/// Listing the members of an organization, first stage: only for members;
/// anyone else is refused. What comes out are the users to look up: the
/// listed members and the owner, each once.
pub fn organizations_members_list_authorize(target: Target, org: Lookup<OrganizationDb>) -> (r:
    Result<Vec<ResourceId>, Failure>)
    ensures
        match authorization(Action::ListMembers, target.caller, target.id, org) {
            Err(f) => r == Err::<Vec<ResourceId>, Failure>(f),
            Ok(o) => r matches Ok(ids) && ids@ == o.lookup_order() && ids@.to_set()
                == o.effective_members() && ids@.no_duplicates(),
        },
{
    match authorize(Action::ListMembers, target.caller, target.id, org) {
        Ok(o) => Ok(o.member_ids_with_owner()),
        Err(f) => Err(f),
    }
}

/// Listing the members of an organization, last stage: the public faces of
/// the users that storage gave, in order.
pub fn organizations_members_list_finish(users: &Vec<UserDb>) -> (out: Vec<UserOut>)
    ensures
        out@.len() == users@.len(),
        forall|i: int| 0 <= i < users@.len() ==> shows_user(#[trigger] out@[i], users@[i]),
{
    let mut out: Vec<UserOut> = Vec::new();
    let mut i: usize = 0;
    while i < users.len()
        invariant
            i <= users@.len(),
            out@.len() == i,
            forall|j: int| 0 <= j < i ==> shows_user(#[trigger] out@[j], users@[j]),
        decreases users@.len() - i,
    {
        out.push(UserOut::of(&users[i]));
        i += 1;
    }
    out
}

/// Deleting an organization: it must exist, and the caller must own it.
/// What comes out is the organization whose issues are deleted first and
/// which is deleted after them.
pub fn organizations_delete_authorize(target: Target, org: Lookup<OrganizationDb>) -> (r: Result<
    ResourceId,
    Failure,
>)
    ensures
        match authorization(Action::DeleteOrganization, target.caller, target.id, org) {
            Err(f) => r == Err::<ResourceId, Failure>(f),
            Ok(_) => r == Ok::<ResourceId, Failure>(target.id),
        },
{
    match authorize(Action::DeleteOrganization, target.caller, target.id, org) {
        Ok(_) => Ok(target.id),
        Err(f) => Err(f),
    }
}

} // verus!
