use lumen::error::{exit_code, CommandError, Subprocess};

#[test]
fn not_found_names_the_identifier() {
    let error = CommandError::NotFound { id: "abc123".to_string() };
    assert_eq!(error.message(), "commit not found: abc123");
}

#[test]
fn provider_failure_is_passed_on_word_for_word() {
    let error = CommandError::ProviderFailure { message: "401 Unauthorized: bad key".to_string() };
    assert_eq!(error.message(), "401 Unauthorized: bad key");
}

#[test]
fn subprocess_failures_name_the_subprocess() {
    let picker = CommandError::SubprocessFailure { process: Subprocess::Picker, status: Some(1) };
    assert_eq!(picker.message(), "the commit picker failed");
    let display = CommandError::SubprocessFailure { process: Subprocess::Display, status: None };
    assert_eq!(display.message(), "the display pipeline failed");
}

#[test]
fn exit_code_is_zero_for_success_only() {
    assert_eq!(exit_code(&Ok(())), 0);
    assert_eq!(exit_code(&Err(CommandError::NotFound { id: "x".to_string() })), 1);
    assert_eq!(exit_code(&Err(CommandError::ProviderFailure { message: String::new() })), 1);
    assert_eq!(
        exit_code(&Err(CommandError::SubprocessFailure {
            process: Subprocess::Picker,
            status: Some(1)
        })),
        1
    );
    assert_eq!(
        exit_code(&Err(CommandError::SubprocessFailure {
            process: Subprocess::Display,
            status: Some(0)
        })),
        1
    );
}
