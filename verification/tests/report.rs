use lumen::commit::CommitRecord;
use lumen::report::render_report;

fn sample() -> CommitRecord {
    CommitRecord::new(
        "abc123".to_string(),
        "Ada Lovelace".to_string(),
        "ada@example.org".to_string(),
        "Mon Jan 1 12:00:00 2024 +0000".to_string(),
        "fix bug\n\nThe loop ran once too often.".to_string(),
        "--- a/x\n+++ b/x\n".to_string(),
    )
    .unwrap()
}

#[test]
fn report_has_header_separator_and_explanation() {
    let report = render_report(&sample(), "It fixes an off-by-one error.");
    assert_eq!(
        report,
        "commit abc123\nAuthor: Ada Lovelace <ada@example.org>\nDate: Mon Jan 1 12:00:00 2024 +0000\n\nfix bug\n\nThe loop ran once too often.\n-----\nIt fixes an off-by-one error."
    );
}

#[test]
fn report_shows_identifier_author_and_message_verbatim() {
    let report = render_report(&sample(), "text");
    assert!(report.contains("commit abc123"));
    assert!(report.contains("Ada Lovelace"));
    assert!(report.contains("ada@example.org"));
    assert!(report.contains("fix bug\n\nThe loop ran once too often."));
    assert!(report.ends_with("\n-----\ntext"));
}

#[test]
fn report_leaves_the_diff_out() {
    let report = render_report(&sample(), "text");
    assert!(!report.contains("+++ b/x"));
}

#[test]
fn rendering_twice_gives_the_same_bytes() {
    let commit = sample();
    let first = render_report(&commit, "same words");
    let second = render_report(&commit, "same words");
    assert_eq!(first.as_bytes(), second.as_bytes());
    let third = render_report(&sample(), "same words");
    assert_eq!(first.as_bytes(), third.as_bytes());
}

#[test]
fn rendering_changes_neither_argument() {
    let commit = sample();
    let explanation = "words".to_string();
    let _ = render_report(&commit, &explanation);
    assert_eq!(commit, sample());
    assert_eq!(explanation, "words");
}

#[test]
fn report_with_empty_fields() {
    let commit = CommitRecord::new(
        "x".to_string(),
        String::new(),
        String::new(),
        String::new(),
        String::new(),
        String::new(),
    )
    .unwrap();
    assert_eq!(render_report(&commit, ""), "commit x\nAuthor:  <>\nDate: \n\n\n-----\n");
}
