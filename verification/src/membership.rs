//! The membership oracle: who belongs to an organization, and who owns it.
//! Both questions are answered from the organization's record alone.

use crate::ident::ResourceId;
use crate::models::OrganizationDb;
use vstd::prelude::*;

verus! {

impl OrganizationDb {
    /// The users whom the record lists as members.
    pub open spec fn members(&self) -> Set<ResourceId> {
        self.member_ids@.to_set()
    }

    /// The users who count as members when the members are listed: the
    /// listed ones and the owner.
    pub open spec fn effective_members(&self) -> Set<ResourceId> {
        self.members().insert(self.owner_id)
    }

    /// The record is as creation and the addition of members leave it: the
    /// owner is listed as a member, and nobody is listed twice.
    pub open spec fn well_formed(&self) -> bool {
        &&& self.member_ids@.contains(self.owner_id)
        &&& self.member_ids@.no_duplicates()
    }

    /// Whether `user` is a member.
    pub fn is_member(&self, user: ResourceId) -> (r: bool)
        ensures
            r == self.members().contains(user),
    {
        contains_id(&self.member_ids, user)
    }

    /// Whether `user` is the owner.
    pub fn is_owner(&self, user: ResourceId) -> (r: bool)
        ensures
            r == (self.owner_id == user),
    {
        self.owner_id == user
    }

    /// A new organization: `owner` owns it and is its only member.
    pub fn new(id: ResourceId, name: String, key: String, owner: ResourceId) -> (r: OrganizationDb)
        ensures
            r.id == id,
            r.name == name,
            r.key == key,
            r.owner_id == owner,
            r.member_ids@ == seq![owner],
            r.well_formed(),
    {
        let mut member_ids: Vec<ResourceId> = Vec::new();
        member_ids.push(owner);
        assert(member_ids@ =~= seq![owner]);
        assert(member_ids@[0] == owner);
        OrganizationDb { id, name, key, owner_id: owner, member_ids }
    }

    /// Lists `user` as a member unless the record lists them already.
    pub fn add_member(&mut self, user: ResourceId)
        ensures
            final(self).id == old(self).id,
            final(self).name == old(self).name,
            final(self).key == old(self).key,
            final(self).owner_id == old(self).owner_id,
            final(self).member_ids@ == if old(self).members().contains(user) {
                old(self).member_ids@
            } else {
                old(self).member_ids@.push(user)
            },
            final(self).members() == old(self).members().insert(user),
            old(self).well_formed() ==> final(self).well_formed(),
    {
        if !self.is_member(user) {
            self.member_ids.push(user);
            proof {
                lemma_push_set(old(self).member_ids@, user);
            }
        } else {
            assert(self.members().insert(user) =~= self.members());
        }
    }

    /// The effective members in the order in which they are looked up:
    /// the listed members in their order, each once, and then the owner
    /// unless listed.
    pub open spec fn lookup_order(&self) -> Seq<ResourceId> {
        with_one(each_once(self.member_ids@), self.owner_id)
    }

    /// The effective members, each once, in lookup order.
    pub fn member_ids_with_owner(&self) -> (ids: Vec<ResourceId>)
        ensures
            ids@ == self.lookup_order(),
            ids@.to_set() == self.effective_members(),
            ids@.no_duplicates(),
    {
        let mut ids: Vec<ResourceId> = Vec::new();
        let mut i: usize = 0;
        assert(self.member_ids@.take(0) =~= Seq::<ResourceId>::empty());
        while i < self.member_ids.len()
            invariant
                i <= self.member_ids@.len(),
                ids@ == each_once(self.member_ids@.take(i as int)),
            decreases self.member_ids@.len() - i,
        {
            let user = self.member_ids[i];
            assert(self.member_ids@.take(i + 1).drop_last() =~= self.member_ids@.take(i as int));
            if !contains_id(&ids, user) {
                ids.push(user);
            }
            i += 1;
        }
        assert(self.member_ids@.take(self.member_ids@.len() as int) =~= self.member_ids@);
        if !contains_id(&ids, self.owner_id) {
            ids.push(self.owner_id);
        }
        proof {
            lemma_each_once(self.member_ids@);
            lemma_push_set(each_once(self.member_ids@), self.owner_id);
            if each_once(self.member_ids@).contains(self.owner_id) {
                assert(self.members().insert(self.owner_id) =~= self.members());
            }
        }
        ids
    }
}

/// `s` with `x` at its end, unless `x` occurs in `s`.
pub open spec fn with_one(s: Seq<ResourceId>, x: ResourceId) -> Seq<ResourceId> {
    if s.contains(x) {
        s
    } else {
        s.push(x)
    }
}

/// The elements of `s` in the order of their first occurrence, each once.
pub open spec fn each_once(s: Seq<ResourceId>) -> Seq<ResourceId>
    decreases s.len(),
{
    if s.len() == 0 {
        s
    } else {
        with_one(each_once(s.drop_last()), s.last())
    }
}

/// Listing each element once keeps the elements and leaves no repetition.
pub proof fn lemma_each_once(s: Seq<ResourceId>)
    ensures
        each_once(s).to_set() == s.to_set(),
        each_once(s).no_duplicates(),
    decreases s.len(),
{
    if s.len() == 0 {
    } else {
        let front = s.drop_last();
        lemma_each_once(front);
        lemma_push_set(each_once(front), s.last());
        lemma_push_set(front, s.last());
        assert(front.push(s.last()) =~= s);
        if each_once(front).contains(s.last()) {
            assert(front.to_set().insert(s.last()) =~= front.to_set());
        }
    }
}

/// Whether `id` occurs in `ids`.
pub fn contains_id(ids: &Vec<ResourceId>, id: ResourceId) -> (r: bool)
    ensures
        r == ids@.contains(id),
{
    let mut i: usize = 0;
    while i < ids.len()
        invariant
            i <= ids@.len(),
            forall|j: int| 0 <= j < i ==> ids@[j] != id,
        decreases ids@.len() - i,
    {
        if ids[i] == id {
            return true;
        }
        i += 1;
    }
    false
}

/// The elements of a sequence with one more pushed are those of the
/// sequence and the new one; pushing a new element keeps a sequence free of
/// repetitions; what occurred before the push occurs after it.
pub proof fn lemma_push_set(s: Seq<ResourceId>, x: ResourceId)
    ensures
        s.push(x).to_set() == s.to_set().insert(x),
        s.no_duplicates() && !s.contains(x) ==> s.push(x).no_duplicates(),
        forall|y: ResourceId| s.contains(y) ==> #[trigger] s.push(x).contains(y),
{
    let t = s.push(x);
    assert forall|y: ResourceId| s.contains(y) implies #[trigger] t.contains(y) by {
        let i = choose|i: int| 0 <= i < s.len() && s[i] == y;
        assert(t[i] == y);
    }
    assert forall|y: ResourceId| t.to_set().contains(y) == s.to_set().insert(x).contains(y) by {
        if t.contains(y) {
            let i = choose|i: int| 0 <= i < t.len() && t[i] == y;
            if i < s.len() {
                assert(s[i] == y);
            }
        }
        if s.contains(y) {
            let i = choose|i: int| 0 <= i < s.len() && s[i] == y;
            assert(t[i] == y);
        }
        assert(t[s.len() as int] == x);
    }
    assert(t.to_set() =~= s.to_set().insert(x));
}

/// The owner of an organization is among its effective members, and among
/// its listed members wherever the record is well formed.
pub proof fn lemma_owner_is_member(org: OrganizationDb)
    ensures
        org.effective_members().contains(org.owner_id),
        org.well_formed() ==> org.members().contains(org.owner_id),
        org.well_formed() ==> org.effective_members() == org.members(),
{
    if org.well_formed() {
        assert(org.members().insert(org.owner_id) =~= org.members());
    }
}

} // verus!
