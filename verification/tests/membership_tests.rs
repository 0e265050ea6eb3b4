use backend::ident::ResourceId;
use backend::membership::contains_id;
use backend::models::OrganizationDb;

fn id(n: u8) -> ResourceId {
    ResourceId { bytes: [n; 12] }
}

fn org(owner: u8, members: &[u8]) -> OrganizationDb {
    OrganizationDb {
        id: id(100),
        name: "Acme".to_string(),
        key: "ACME".to_string(),
        owner_id: id(owner),
        member_ids: members.iter().map(|m| id(*m)).collect(),
    }
}

#[test]
fn new_organization_lists_its_owner_alone() {
    let o = OrganizationDb::new(id(1), "Acme".to_string(), "ACME".to_string(), id(7));
    assert_eq!(o.id, id(1));
    assert_eq!(o.name, "Acme");
    assert_eq!(o.key, "ACME");
    assert_eq!(o.owner_id, id(7));
    assert_eq!(o.member_ids, vec![id(7)]);
    assert!(o.is_member(id(7)));
    assert!(o.is_owner(id(7)));
}

#[test]
fn membership_is_being_listed() {
    let o = org(1, &[1, 2, 3]);
    assert!(o.is_member(id(1)));
    assert!(o.is_member(id(3)));
    assert!(!o.is_member(id(4)));
    assert!(!org(1, &[]).is_member(id(1)));
}

#[test]
fn ownership_is_being_the_owner() {
    let o = org(1, &[1, 2]);
    assert!(o.is_owner(id(1)));
    assert!(!o.is_owner(id(2)));
    assert!(!o.is_owner(id(9)));
}

#[test]
fn adding_a_member_lists_them_once() {
    let mut o = org(1, &[1]);
    o.add_member(id(2));
    assert_eq!(o.member_ids, vec![id(1), id(2)]);
    o.add_member(id(2));
    assert_eq!(o.member_ids, vec![id(1), id(2)]);
    o.add_member(id(1));
    assert_eq!(o.member_ids, vec![id(1), id(2)]);
    assert_eq!(o.owner_id, id(1));
    assert_eq!(o.key, "ACME");
}

#[test]
fn owner_stays_a_member_through_additions() {
    let mut o = OrganizationDb::new(id(1), "Acme".to_string(), "ACME".to_string(), id(7));
    for n in 0..20u8 {
        o.add_member(id(n));
        assert!(o.is_member(o.owner_id));
    }
    assert_eq!(o.member_ids.len(), 20);
}

#[test]
fn effective_members_are_listed_members_and_owner_each_once() {
    assert_eq!(org(1, &[1, 2, 3]).member_ids_with_owner(), vec![id(1), id(2), id(3)]);
    assert_eq!(org(9, &[1, 2, 3]).member_ids_with_owner(), vec![id(1), id(2), id(3), id(9)]);
    assert_eq!(org(9, &[2, 2, 1, 2]).member_ids_with_owner(), vec![id(2), id(1), id(9)]);
    assert_eq!(org(9, &[]).member_ids_with_owner(), vec![id(9)]);
}

#[test]
fn finds_identifiers_in_a_list() {
    let ids = vec![id(1), id(2)];
    assert!(contains_id(&ids, id(2)));
    assert!(!contains_id(&ids, id(3)));
    assert!(!contains_id(&Vec::new(), id(1)));
}
