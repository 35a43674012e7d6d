use lumen::selection::{chosen_identifier, cut_before};

#[test]
fn picks_the_first_token_of_the_chosen_line() {
    assert_eq!(chosen_identifier("abc123 fix bug\n"), Some("abc123".to_string()));
}

#[test]
fn strips_the_newline_after_a_bare_identifier() {
    assert_eq!(chosen_identifier("abc123\n"), Some("abc123".to_string()));
}

#[test]
fn takes_an_identifier_without_a_newline() {
    assert_eq!(chosen_identifier("abc123"), Some("abc123".to_string()));
}

#[test]
fn reads_the_first_line_only() {
    assert_eq!(chosen_identifier("abc123\ndef456 other\n"), Some("abc123".to_string()));
}

#[test]
fn empty_output_names_nothing() {
    assert_eq!(chosen_identifier(""), None);
}

#[test]
fn a_lone_newline_names_nothing() {
    assert_eq!(chosen_identifier("\n"), None);
    assert_eq!(chosen_identifier("\nabc123\n"), None);
}

#[test]
fn a_line_that_starts_with_a_space_names_nothing() {
    assert_eq!(chosen_identifier(" abc123\n"), None);
}

#[test]
fn identifier_may_hold_any_other_character() {
    assert_eq!(chosen_identifier("v1.0:é\u{1F600} tag\n"), Some("v1.0:é\u{1F600}".to_string()));
}

#[test]
fn cut_before_leaves_out_the_stop_and_what_follows() {
    assert_eq!(cut_before("a:b:c", ':'), "a");
    assert_eq!(cut_before(":a", ':'), "");
    assert_eq!(cut_before("abc", ':'), "abc");
    assert_eq!(cut_before("", ':'), "");
    assert_eq!(cut_before("ééé é", ' '), "ééé");
}
