use backend::access::{absence_of, authorize, is_permitted, refusal_of, Action};
use backend::failure::{Failure, FailureKind};
use backend::ident::ResourceId;
use backend::models::OrganizationDb;
use backend::storage::Lookup;

const ALL: [Action; 10] = [
    Action::AddMember,
    Action::DeleteOrganization,
    Action::GetOrganization,
    Action::ListMembers,
    Action::CreateIssue,
    Action::UpdateIssue,
    Action::DeleteIssue,
    Action::GetIssue,
    Action::ListIssues,
    Action::SearchIssues,
];

fn id(n: u8) -> ResourceId {
    ResourceId { bytes: [n; 12] }
}

fn org(owner: u8, members: &[u8]) -> OrganizationDb {
    OrganizationDb {
        id: id(50),
        name: "Acme".to_string(),
        key: "ACME".to_string(),
        owner_id: id(owner),
        member_ids: members.iter().map(|m| id(*m)).collect(),
    }
}

fn owner_only(action: Action) -> bool {
    matches!(action, Action::AddMember | Action::DeleteOrganization)
}

#[test]
fn owner_may_do_everything() {
    let o = org(1, &[1, 2]);
    for action in ALL {
        assert!(is_permitted(action, id(1), &o), "{:?}", action);
        assert_eq!(authorize(action, id(1), id(50), Lookup::Found(o.clone())), Ok(o.clone()));
    }
}

#[test]
fn member_may_do_all_but_the_owners_actions() {
    let o = org(1, &[1, 2]);
    for action in ALL {
        assert_eq!(is_permitted(action, id(2), &o), !owner_only(action), "{:?}", action);
    }
    assert_eq!(
        authorize(Action::AddMember, id(2), id(50), Lookup::Found(o.clone())),
        Err(Failure::OwnerOnlyAddMember)
    );
    assert_eq!(
        authorize(Action::DeleteOrganization, id(2), id(50), Lookup::Found(o.clone())),
        Err(Failure::OwnerOnlyDelete)
    );
    assert_eq!(authorize(Action::UpdateIssue, id(2), id(50), Lookup::Found(o.clone())), Ok(o));
}

#[test]
fn stranger_may_do_nothing() {
    let o = org(1, &[1, 2]);
    for action in ALL {
        assert!(!is_permitted(action, id(3), &o), "{:?}", action);
        let r = authorize(action, id(3), id(50), Lookup::Found(o.clone()));
        assert_eq!(r, Err(refusal_of(action)));
    }
}

#[test]
fn owner_whom_the_record_does_not_list_acts_as_owner_only() {
    let o = org(1, &[2]);
    for action in ALL {
        assert_eq!(is_permitted(action, id(1), &o), owner_only(action), "{:?}", action);
    }
}

#[test]
fn refusals_are_forbidden_but_for_showing_an_organization() {
    for action in ALL {
        let kind = refusal_of(action).kind();
        if matches!(action, Action::GetOrganization) {
            assert_eq!(refusal_of(action), Failure::OrganizationNotFound);
            assert_eq!(kind, FailureKind::NotFound);
        } else {
            assert_eq!(kind, FailureKind::Forbidden, "{:?}", action);
        }
    }
    assert_eq!(refusal_of(Action::ListMembers), Failure::NotMember);
    assert_eq!(refusal_of(Action::CreateIssue), Failure::NotMember);
}

#[test]
fn absent_organization_is_not_found_or_forbidden() {
    for action in [Action::AddMember, Action::DeleteOrganization, Action::GetOrganization] {
        assert_eq!(absence_of(action), Failure::OrganizationNotFound);
        assert_eq!(authorize(action, id(1), id(50), Lookup::Absent), Err(Failure::OrganizationNotFound));
        // a record other than the one asked for counts as absent
        assert_eq!(
            authorize(action, id(1), id(51), Lookup::Found(org(1, &[1]))),
            Err(Failure::OrganizationNotFound)
        );
    }
    for action in [
        Action::ListMembers,
        Action::CreateIssue,
        Action::UpdateIssue,
        Action::DeleteIssue,
        Action::GetIssue,
        Action::ListIssues,
        Action::SearchIssues,
    ] {
        assert_eq!(absence_of(action), Failure::NotMember);
        assert_eq!(authorize(action, id(1), id(50), Lookup::Absent), Err(Failure::NotMember));
        assert_eq!(authorize(action, id(1), id(51), Lookup::Found(org(1, &[1]))), Err(Failure::NotMember));
    }
}

#[test]
fn storage_failure_is_an_internal_error_for_every_action() {
    for action in ALL {
        let r = authorize(action, id(1), id(50), Lookup::Failed);
        assert_eq!(r, Err(Failure::Database));
        assert_eq!(r.unwrap_err().kind(), FailureKind::InternalError);
    }
}
