use chat_relay::diagnostics::{
    credential_line, debug_lines, input_line, model_line, prompt_line, verbosity, Verbosity,
};
use chat_relay::error::ClientError;

#[test]
fn prompt_line_shows_the_prompt() {
    assert_eq!(prompt_line("Be brief."), "prompt: <Be brief.>");
    assert_eq!(prompt_line(""), "prompt: <>");
}

#[test]
fn input_line_shows_the_input() {
    assert_eq!(input_line("Hello\nWorld"), "input: <Hello\nWorld>");
    assert_eq!(input_line(""), "input: <>");
}

#[test]
fn model_line_shows_the_model() {
    assert_eq!(model_line("gpt-4o-mini"), "model: gpt-4o-mini");
}

#[test]
fn credential_line_is_masked() {
    assert_eq!(credential_line("sk-secret-value"), "api_key: <***>");
    assert_eq!(credential_line(""), "api_key: <***>");
    assert_eq!(credential_line("sk-secret-value"), credential_line("another"));
    assert!(!credential_line("sk-secret-value").contains("sk-secret-value"));
}

#[test]
fn messages_name_each_failure() {
    assert_eq!(
        ClientError::MissingCredential.message(),
        "An environment variable CHATGPT_API_KEY is required."
    );
    assert_eq!(ClientError::InvalidEndpoint.message(), "API_URL must be a URL");
    assert_eq!(ClientError::InputRead.message(), "Failed to read inputs.");
    assert_eq!(
        ClientError::CompletionRequestFailed.message(),
        "Failed to fetch a response from ChatGPT."
    );
}

#[test]
fn debug_flag_sets_the_verbosity() {
    assert_eq!(verbosity(false), Verbosity::Info);
    assert_eq!(verbosity(true), Verbosity::Debug);
}

#[test]
fn debug_lines_never_hold_the_credential() {
    let lines = debug_lines("Be brief.", "sk-secret-value", "Hello\nWorld", "gpt-4o-mini");
    assert_eq!(
        lines,
        vec![
            "prompt: <Be brief.>".to_owned(),
            "api_key: <***>".to_owned(),
            "input: <Hello\nWorld>".to_owned(),
            "model: gpt-4o-mini".to_owned(),
        ]
    );
    assert!(lines.iter().all(|line| !line.contains("sk-secret-value")));
    assert_eq!(lines, debug_lines("Be brief.", "another", "Hello\nWorld", "gpt-4o-mini"));
}
