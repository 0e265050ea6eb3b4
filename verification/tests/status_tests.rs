use backend::status::normalize_status;

#[test]
fn canonical_statuses_stand_for_themselves() {
    assert_eq!(normalize_status("todo"), Some("todo"));
    assert_eq!(normalize_status("in_progress"), Some("in_progress"));
    assert_eq!(normalize_status("in_review"), Some("in_review"));
    assert_eq!(normalize_status("done"), Some("done"));
}

#[test]
fn backlog_is_an_alias_of_in_review() {
    assert_eq!(normalize_status("backlog"), Some("in_review"));
}

#[test]
fn other_texts_are_no_status() {
    assert_eq!(normalize_status(""), None);
    assert_eq!(normalize_status("TODO"), None);
    assert_eq!(normalize_status(" todo"), None);
    assert_eq!(normalize_status("closed"), None);
}
