use backend::access::{authorize, locate_issue, resolve_target, Action, Target};
use backend::auth::Credential;
use backend::failure::{Failure, FailureKind};
use backend::storage::Lookup;
use backend::ident::ResourceId;
use backend::issues::{
    draft_issue, issues_create_authorize, issues_create_begin, issues_create_finish,
    issues_delete_authorize, issues_get_by_id_decide, issues_list_authorize, issues_list_begin,
    issues_list_select, issues_search_begin, issues_search_select, issues_update_authorize,
    issues_update_finish, IssueDraft, SearchPlan, SEARCH_LIMIT,
};
use backend::models::{IssueDb, IssueIn, IssueOut, ListIssuesQuery, OrganizationDb, SearchQuery};
use backend::token::issue_token_at;
use backend::validate::Fault;

const SECRET: &str = "dev-secret-change-me";
const NOW: u64 = 1_700_000_000;

fn id(n: u8) -> ResourceId {
    ResourceId { bytes: [n; 12] }
}

fn credential(user: ResourceId) -> Credential {
    Credential::Text(format!("Bearer {}", issue_token_at(user, SECRET, NOW).unwrap()))
}

fn org(n: u8, owner: u8, members: &[u8]) -> OrganizationDb {
    OrganizationDb {
        id: id(n),
        name: format!("Org {}", n),
        key: format!("ORG{}", n),
        owner_id: id(owner),
        member_ids: members.iter().map(|m| id(*m)).collect(),
    }
}

fn stored(n: u8, organization: u8, parent: Option<u8>) -> IssueDb {
    IssueDb {
        id: id(n),
        organization_id: id(organization),
        title: format!("Issue {}", n),
        description: "Text".to_string(),
        status: "todo".to_string(),
        assignee_id: None,
        parent_issue_id: parent.map(id),
    }
}

fn payload(organization: u8, status: &str) -> IssueIn {
    IssueIn {
        organization_id: id(organization).to_hex(),
        title: "Title".to_string(),
        description: "Text".to_string(),
        status: status.to_string(),
        assignee_id: None,
        parent_issue_id: None,
    }
}

fn lookup(issues: &[IssueDb], wanted: Option<ResourceId>) -> Lookup<IssueDb> {
    match wanted.and_then(|w| issues.iter().find(|i| i.id == w)) {
        Some(i) => Lookup::Found(i.clone()),
        None => Lookup::Absent,
    }
}

/// Creates an issue the way the server does: three decisions, two lookups.
fn create(caller: u8, orgs: &[OrganizationDb], issues: &[IssueDb], body: &IssueIn, new_id: u8) -> Result<IssueDb, Failure> {
    let target = issues_create_begin(&credential(id(caller)), SECRET, NOW, body)?;
    let org = match orgs.iter().find(|o| o.id == target.id) {
        Some(o) => Lookup::Found(o.clone()),
        None => Lookup::Absent,
    };
    let draft = issues_create_authorize(target, org, body)?;
    let parent = lookup(issues, draft.parent_issue_id);
    issues_create_finish(draft, parent, id(new_id))
}

#[test]
fn member_creates_an_issue() {
    let orgs = [org(50, 1, &[1, 2])];
    let mut body = payload(50, " backlog ");
    body.assignee_id = Some(format!("  {}  ", id(2).to_hex()));
    let issue = create(1, &orgs, &[], &body, 70).unwrap();
    assert_eq!(
        issue,
        IssueDb {
            id: id(70),
            organization_id: id(50),
            title: "Title".to_string(),
            description: "Text".to_string(),
            status: "in_review".to_string(),
            assignee_id: Some(id(2)),
            parent_issue_id: None,
        }
    );
}

#[test]
fn stored_status_is_canonical() {
    let orgs = [org(50, 1, &[1])];
    for (given, kept) in [("todo", "todo"), ("in_progress", "in_progress"), ("in_review", "in_review"), ("backlog", "in_review"), ("done", "done")] {
        assert_eq!(create(1, &orgs, &[], &payload(50, given), 70).unwrap().status, kept);
    }
    assert_eq!(create(1, &orgs, &[], &payload(50, "closed"), 70), Err(Failure::Invalid(Fault::InvalidStatus)));
}

#[test]
fn parent_from_another_organization_is_rejected() {
    let orgs = [org(1, 1, &[1]), org(2, 1, &[1])];
    let issues = [stored(10, 1, None)];
    let mut body = payload(2, "todo");
    body.parent_issue_id = Some(id(10).to_hex());
    let r = create(1, &orgs, &issues, &body, 70);
    assert_eq!(r, Err(Failure::ParentNotInOrganization));
    let failure = r.unwrap_err();
    assert_eq!(failure.kind(), FailureKind::BadRequest);
    assert_eq!(failure.status_code(), 400);

    // the same parent is accepted for an issue of its own organization
    body.organization_id = id(1).to_hex();
    let issue = create(1, &orgs, &issues, &body, 70).unwrap();
    assert_eq!(issue.parent_issue_id, Some(id(10)));
    assert_eq!(issue.organization_id, issues[0].organization_id);
}

#[test]
fn parent_must_exist() {
    let orgs = [org(1, 1, &[1])];
    let mut body = payload(1, "todo");
    body.parent_issue_id = Some(id(10).to_hex());
    assert_eq!(create(1, &orgs, &[], &body, 70), Err(Failure::ParentNotInOrganization));
    let draft = issues_create_authorize(Target { caller: id(1), id: id(1) }, Lookup::Found(orgs[0].clone()), &body).unwrap();
    assert_eq!(issues_create_finish(draft.clone(), Lookup::Failed, id(70)), Err(Failure::Database));
    // an issue other than the one asked for is no answer
    assert_eq!(
        issues_create_finish(draft, Lookup::Found(stored(11, 1, None)), id(70)),
        Err(Failure::ParentNotInOrganization)
    );
}

#[test]
fn without_a_parent_the_lookup_is_not_looked_at() {
    let draft = IssueDraft {
        organization_id: id(1),
        title: "Title".to_string(),
        description: "Text".to_string(),
        status: "todo".to_string(),
        assignee_id: None,
        parent_issue_id: None,
    };
    for answer in [Lookup::Failed, Lookup::Absent, Lookup::Found(stored(10, 2, None))] {
        assert_eq!(issues_create_finish(draft.clone(), answer, id(70)).unwrap().id, id(70));
    }
}

#[test]
fn creation_checks_in_order() {
    let orgs = [org(50, 1, &[1])];
    let mut body = payload(50, "closed");
    body.title = " ".to_string();
    body.assignee_id = Some("nonsense".to_string());
    body.parent_issue_id = Some("nonsense".to_string());

    // identity first
    assert_eq!(issues_create_begin(&Credential::Missing, SECRET, NOW, &body), Err(Failure::MissingCredential));
    assert_eq!(
        issues_create_begin(&Credential::Text("Basic abc".to_string()), SECRET, NOW, &body),
        Err(Failure::WrongScheme)
    );
    // then the organization, which membership is asked of
    let mut nowhere = body.clone();
    nowhere.organization_id = "nonsense".to_string();
    assert_eq!(create(1, &orgs, &[], &nowhere, 70), Err(Failure::InvalidOrganizationId));
    // then membership, before anything is said about the payload
    assert_eq!(create(2, &orgs, &[], &body, 70), Err(Failure::NotMember));
    let mut elsewhere = body.clone();
    elsewhere.organization_id = id(51).to_hex();
    assert_eq!(create(1, &orgs, &[], &elsewhere, 70), Err(Failure::NotMember));
    // then the payload: fields, status
    assert_eq!(create(1, &orgs, &[], &body, 70), Err(Failure::Invalid(Fault::IssueFieldsRequired)));
    body.title = "Title".to_string();
    assert_eq!(create(1, &orgs, &[], &body, 70), Err(Failure::Invalid(Fault::InvalidStatus)));
    body.status = "done".to_string();
    // then the form of the references
    assert_eq!(create(1, &orgs, &[], &body, 70), Err(Failure::InvalidAssigneeId));
    body.assignee_id = Some(id(2).to_hex());
    assert_eq!(create(1, &orgs, &[], &body, 70), Err(Failure::InvalidParentIssueId));
    body.parent_issue_id = Some(id(10).to_hex());
    // then what they refer to
    assert_eq!(create(1, &orgs, &[], &body, 70), Err(Failure::AssigneeNotMember));
    body.assignee_id = Some(id(1).to_hex());
    assert_eq!(create(1, &orgs, &[], &body, 70), Err(Failure::ParentNotInOrganization));
    assert!(create(1, &orgs, &[stored(10, 50, None)], &body, 70).is_ok());
}

#[test]
fn blank_assignee_is_no_assignee() {
    let o = org(50, 1, &[1]);
    let mut body = payload(50, "todo");
    body.assignee_id = Some("   ".to_string());
    assert_eq!(draft_issue(&o, &body).unwrap().assignee_id, None);
    body.assignee_id = Some(String::new());
    assert_eq!(draft_issue(&o, &body).unwrap().assignee_id, None);
    // a parent is read as given
    body.parent_issue_id = Some(String::new());
    assert_eq!(draft_issue(&o, &body), Err(Failure::InvalidParentIssueId));
    body.parent_issue_id = Some(format!(" {}", id(10).to_hex()));
    assert_eq!(draft_issue(&o, &body), Err(Failure::InvalidParentIssueId));
}

#[test]
fn membership_is_asked_of_the_record_that_was_asked_for() {
    let o = org(50, 1, &[1, 2]);
    let a = Action::SearchIssues;
    assert_eq!(authorize(a, id(2), id(50), Lookup::Found(o.clone())), Ok(o.clone()));
    assert_eq!(authorize(a, id(3), id(50), Lookup::Found(o.clone())), Err(Failure::NotMember));
    assert_eq!(authorize(a, id(2), id(51), Lookup::Found(o)), Err(Failure::NotMember));
    assert_eq!(authorize(a, id(2), id(50), Lookup::Absent), Err(Failure::NotMember));
    assert_eq!(authorize(a, id(2), id(50), Lookup::Failed), Err(Failure::Database));
}

#[test]
fn issue_is_located_before_membership_is_asked() {
    let target = resolve_target(&credential(id(9)), SECRET, NOW, &id(10).to_hex()).unwrap();
    assert_eq!(target, Target { caller: id(9), id: id(10) });
    let r = locate_issue(target.id, Lookup::Absent);
    assert_eq!(r, Err(Failure::IssueNotFound));
    assert_eq!(r.unwrap_err().kind(), FailureKind::NotFound);
    assert_eq!(locate_issue(target.id, Lookup::Failed), Err(Failure::Database));
    assert_eq!(locate_issue(target.id, Lookup::Found(stored(11, 50, None))), Err(Failure::IssueNotFound));
    let issue = locate_issue(target.id, Lookup::Found(stored(10, 50, None))).unwrap();
    assert_eq!(
        issues_get_by_id_decide(target.caller, &issue, Lookup::Found(org(50, 1, &[1]))),
        Err(Failure::NotMember)
    );
}

#[test]
fn issue_is_shown_to_members() {
    let mut issue = stored(10, 50, Some(11));
    issue.assignee_id = Some(id(2));
    let shown = issues_get_by_id_decide(id(2), &issue, Lookup::Found(org(50, 1, &[1, 2]))).unwrap();
    assert_eq!(
        shown,
        IssueOut {
            id: id(10).to_hex(),
            organization_id: id(50).to_hex(),
            title: "Issue 10".to_string(),
            description: "Text".to_string(),
            status: "todo".to_string(),
            assignee_id: Some(id(2).to_hex()),
            parent_issue_id: Some(id(11).to_hex()),
        }
    );
    assert_eq!(IssueOut::from(stored(10, 50, None)).parent_issue_id, None);
    // the organization must be the issue's
    assert_eq!(
        issues_get_by_id_decide(id(2), &issue, Lookup::Found(org(51, 1, &[1, 2]))),
        Err(Failure::NotMember)
    );
    assert_eq!(issues_get_by_id_decide(id(2), &issue, Lookup::Failed), Err(Failure::Database));
}

#[test]
fn issue_is_deleted_by_members() {
    let issue = stored(10, 50, None);
    assert_eq!(issues_delete_authorize(id(2), &issue, Lookup::Found(org(50, 1, &[1, 2]))), Ok(id(10)));
    let r = issues_delete_authorize(id(3), &issue, Lookup::Found(org(50, 1, &[1, 2])));
    assert_eq!(r, Err(Failure::NotMember));
    assert_eq!(r.unwrap_err().kind(), FailureKind::Forbidden);
    assert_eq!(issues_delete_authorize(id(2), &issue, Lookup::Absent), Err(Failure::NotMember));
}

#[test]
fn issue_is_updated_by_members_of_its_organization() {
    let issue = stored(10, 50, None);
    let o = org(50, 1, &[1, 2]);
    let mut body = payload(50, "backlog");
    body.title = "New title".to_string();
    body.parent_issue_id = Some(id(11).to_hex());
    let draft = issues_update_authorize(id(2), &issue, Lookup::Found(o.clone()), &body).unwrap();
    let updated = issues_update_finish(draft.clone(), Lookup::Found(stored(11, 50, None)), issue.id).unwrap();
    assert_eq!(
        updated,
        IssueDb {
            id: id(10),
            organization_id: id(50),
            title: "New title".to_string(),
            description: "Text".to_string(),
            status: "in_review".to_string(),
            assignee_id: None,
            parent_issue_id: Some(id(11)),
        }
    );
    // a parent in another organization is rejected on update too
    assert_eq!(
        issues_update_finish(draft, Lookup::Found(stored(11, 51, None)), issue.id),
        Err(Failure::ParentNotInOrganization)
    );
    // a stranger is refused before the payload is read
    let mut bad = body.clone();
    bad.status = "closed".to_string();
    assert_eq!(issues_update_authorize(id(3), &issue, Lookup::Found(o.clone()), &bad), Err(Failure::NotMember));
    assert_eq!(
        issues_update_authorize(id(2), &issue, Lookup::Found(o.clone()), &bad),
        Err(Failure::Invalid(Fault::InvalidStatus))
    );
}

#[test]
fn update_cannot_move_an_issue_to_another_organization() {
    let issue = stored(10, 50, None);
    let home = org(50, 1, &[1, 2]);
    // the caller is a member of both organizations
    let body = payload(51, "todo");
    assert_eq!(
        issues_update_authorize(id(2), &issue, Lookup::Found(home.clone()), &body),
        Err(Failure::OrganizationMismatch)
    );
    // membership in the named organization alone does not open the issue
    assert_eq!(
        issues_update_authorize(id(2), &issue, Lookup::Found(org(51, 2, &[2])), &body),
        Err(Failure::NotMember)
    );
    let mut body = payload(50, "todo");
    body.organization_id = "nonsense".to_string();
    assert_eq!(
        issues_update_authorize(id(2), &issue, Lookup::Found(home), &body),
        Err(Failure::InvalidOrganizationId)
    );
}

#[test]
fn listing_needs_an_organization() {
    let cred = credential(id(1));
    let none = ListIssuesQuery { organization_id: None, parent_issue_id: None };
    assert_eq!(issues_list_begin(&Credential::Missing, SECRET, NOW, &none), Err(Failure::MissingCredential));
    assert_eq!(issues_list_begin(&cred, SECRET, NOW, &none), Err(Failure::OrganizationIdRequired));
    let bad = ListIssuesQuery { organization_id: Some("x".to_string()), parent_issue_id: None };
    assert_eq!(issues_list_begin(&cred, SECRET, NOW, &bad), Err(Failure::InvalidOrganizationId));
    let good = ListIssuesQuery { organization_id: Some(id(50).to_hex()), parent_issue_id: Some("x".to_string()) };
    let target = issues_list_begin(&cred, SECRET, NOW, &good).unwrap();
    assert_eq!(target, Target { caller: id(1), id: id(50) });
    // membership before the parent is read
    assert_eq!(issues_list_authorize(target, Lookup::Found(org(50, 2, &[2])), &good), Err(Failure::NotMember));
    assert_eq!(
        issues_list_authorize(target, Lookup::Found(org(50, 1, &[1])), &good),
        Err(Failure::InvalidParentIssueId)
    );
    let under = ListIssuesQuery { organization_id: Some(id(50).to_hex()), parent_issue_id: Some(id(10).to_hex()) };
    assert_eq!(issues_list_authorize(target, Lookup::Found(org(50, 1, &[1])), &under), Ok(Some(id(10))));
    let all = ListIssuesQuery { organization_id: Some(id(50).to_hex()), parent_issue_id: None };
    assert_eq!(issues_list_authorize(target, Lookup::Found(org(50, 1, &[1])), &all), Ok(None));
}

#[test]
fn list_shows_issues_of_the_organization_only() {
    let issues = vec![
        stored(10, 50, None),
        stored(11, 51, None),
        stored(12, 50, Some(10)),
        stored(13, 50, Some(11)),
        stored(14, 51, Some(10)),
    ];
    let ids = |out: Vec<IssueOut>| out.into_iter().map(|i| i.id).collect::<Vec<String>>();
    assert_eq!(
        ids(issues_list_select(id(50), None, &issues)),
        vec![id(10).to_hex(), id(12).to_hex(), id(13).to_hex()]
    );
    assert_eq!(ids(issues_list_select(id(50), Some(id(10)), &issues)), vec![id(12).to_hex()]);
    assert_eq!(ids(issues_list_select(id(51), Some(id(10)), &issues)), vec![id(14).to_hex()]);
    assert!(issues_list_select(id(52), None, &issues).is_empty());
    assert!(issues_list_select(id(50), Some(id(99)), &issues).is_empty());
}

#[test]
fn search_for_nothing_needs_no_organization() {
    let cred = credential(id(1));
    for q in [None, Some(String::new()), Some("  \t".to_string())] {
        let query = SearchQuery { q, organization_id: None };
        assert_eq!(issues_search_begin(&cred, SECRET, NOW, &query), Ok(SearchPlan::Nothing));
        assert_eq!(issues_search_begin(&Credential::Missing, SECRET, NOW, &query), Err(Failure::MissingCredential));
    }
}

#[test]
fn search_for_a_text_needs_an_organization() {
    let cred = credential(id(1));
    let mut query = SearchQuery { q: Some("  login screen ".to_string()), organization_id: None };
    assert_eq!(issues_search_begin(&cred, SECRET, NOW, &query), Err(Failure::OrganizationIdRequired));
    query.organization_id = Some("x".to_string());
    assert_eq!(issues_search_begin(&cred, SECRET, NOW, &query), Err(Failure::InvalidOrganizationId));
    query.organization_id = Some(id(50).to_hex());
    assert_eq!(
        issues_search_begin(&cred, SECRET, NOW, &query),
        Ok(SearchPlan::Search { target: Target { caller: id(1), id: id(50) }, text: "login screen".to_string() })
    );
}

#[test]
fn search_answers_with_fifty_issues_at_most() {
    assert_eq!(SEARCH_LIMIT, 50);
    let mut issues: Vec<IssueDb> = Vec::new();
    for n in 0..120u8 {
        // every third issue belongs to another organization
        issues.push(stored(n, if n % 3 == 0 { 51 } else { 50 }, None));
    }
    let out = issues_search_select(id(50), &issues);
    assert_eq!(out.len(), 50);
    let expected: Vec<String> =
        (0..120u8).filter(|n| n % 3 != 0).take(50).map(|n| id(n).to_hex()).collect();
    assert_eq!(out.into_iter().map(|i| i.id).collect::<Vec<String>>(), expected);

    // fewer than the limit: all of them, in order
    let few = issues_search_select(id(51), &issues);
    assert_eq!(few.len(), 40);
    assert_eq!(few[0].id, id(0).to_hex());
    assert_eq!(few[39].id, id(117).to_hex());
    assert!(issues_search_select(id(52), &issues).is_empty());
}
