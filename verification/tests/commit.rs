use lumen::commit::CommitRecord;

#[test]
fn record_keeps_what_it_was_made_with() {
    let record = CommitRecord::new(
        "abc123".to_string(),
        "Ada".to_string(),
        "ada@example.org".to_string(),
        "today".to_string(),
        "fix bug".to_string(),
        "diff".to_string(),
    )
    .unwrap();
    assert_eq!(record.id(), "abc123");
    assert_eq!(record.author_name(), "Ada");
    assert_eq!(record.author_email(), "ada@example.org");
    assert_eq!(record.date(), "today");
    assert_eq!(record.message(), "fix bug");
    assert_eq!(record.diff(), "diff");
}

#[test]
fn no_record_without_an_identifier() {
    let record = CommitRecord::new(
        String::new(),
        "Ada".to_string(),
        "ada@example.org".to_string(),
        "today".to_string(),
        "fix bug".to_string(),
        "diff".to_string(),
    );
    assert_eq!(record, None);
}

#[test]
fn clone_is_an_equal_record() {
    let record = CommitRecord::new(
        "abc123".to_string(),
        "Ada".to_string(),
        "ada@example.org".to_string(),
        "today".to_string(),
        "fix bug".to_string(),
        "diff".to_string(),
    )
    .unwrap();
    let copy = record.clone();
    assert_eq!(copy, record);
    assert_eq!(copy.id(), "abc123");
    assert_eq!(copy.diff(), "diff");
}
