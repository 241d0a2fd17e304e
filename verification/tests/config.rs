use chat_relay::config::{
    endpoint_from, require_credential, resolve_config, resolve_endpoint, RequestConfig,
    CREDENTIAL_VARIABLE, DEFAULT_API_URL, DEFAULT_REPLY_COUNT, DEFAULT_TIMEOUT_SECS, MODEL,
};
use chat_relay::error::ClientError;

#[test]
fn defaults_are_as_documented() {
    assert_eq!(CREDENTIAL_VARIABLE, "CHATGPT_API_KEY");
    assert_eq!(DEFAULT_API_URL, "https://api.openai.com/v1/chat/completions");
    assert_eq!(MODEL, "gpt-4o-mini");
    assert_eq!(DEFAULT_REPLY_COUNT, 1);
    assert_eq!(DEFAULT_TIMEOUT_SECS, 30);
}

#[test]
fn default_endpoint_is_well_formed() {
    assert_eq!(resolve_endpoint(DEFAULT_API_URL), Ok(DEFAULT_API_URL.to_owned()));
}

#[test]
fn endpoint_comes_back_in_normal_form() {
    assert_eq!(
        resolve_endpoint("HTTPS://Example.COM"),
        Ok("https://example.com/".to_owned())
    );
    assert_eq!(
        resolve_endpoint("http://localhost:8080/v1/../v2/chat"),
        Ok("http://localhost:8080/v2/chat".to_owned())
    );
}

#[test]
fn malformed_endpoint_is_refused() {
    assert_eq!(resolve_endpoint(""), Err(ClientError::InvalidEndpoint));
    assert_eq!(resolve_endpoint("not a url"), Err(ClientError::InvalidEndpoint));
    assert_eq!(resolve_endpoint("/v1/chat/completions"), Err(ClientError::InvalidEndpoint));
    assert_eq!(resolve_endpoint("https://"), Err(ClientError::InvalidEndpoint));
}

#[test]
fn endpoint_from_maps_each_outcome() {
    assert_eq!(endpoint_from(Ok("https://a.example/".to_owned())), Ok("https://a.example/".to_owned()));
    assert_eq!(endpoint_from(Err(url::ParseError::EmptyHost)), Err(ClientError::InvalidEndpoint));
    assert_eq!(
        endpoint_from(Err(url::ParseError::RelativeUrlWithoutBase)),
        Err(ClientError::InvalidEndpoint)
    );
}

#[test]
fn credential_is_required() {
    assert_eq!(require_credential(None), Err(ClientError::MissingCredential));
    assert_eq!(require_credential(Some("sk-test".to_owned())), Ok("sk-test".to_owned()));
    assert_eq!(require_credential(Some(String::new())), Ok(String::new()));
}

#[test]
fn missing_credential_is_reported() {
    let resolved = resolve_config(None, DEFAULT_API_URL, None, 1, 30);
    assert_eq!(resolved, Err(ClientError::MissingCredential));
}

#[test]
fn missing_credential_is_reported_before_malformed_endpoint() {
    let resolved = resolve_config(None, "not a url", Some(5), 2, 10);
    assert_eq!(resolved, Err(ClientError::MissingCredential));
}

#[test]
fn malformed_endpoint_is_reported() {
    let resolved = resolve_config(Some("sk-test".to_owned()), "not a url", None, 1, 30);
    assert_eq!(resolved, Err(ClientError::InvalidEndpoint));
}

#[test]
fn resolved_config_holds_what_was_given() {
    let resolved = resolve_config(
        Some("sk-test".to_owned()),
        "https://api.example.org/v1/chat/completions",
        Some(256),
        3,
        45,
    );
    assert_eq!(
        resolved,
        Ok(RequestConfig {
            credential: "sk-test".to_owned(),
            api_url: "https://api.example.org/v1/chat/completions".to_owned(),
            max_tokens: Some(256),
            reply_count: 3,
            timeout_secs: 45,
        })
    );
}

#[test]
fn numbers_are_not_range_checked() {
    let resolved = resolve_config(Some("k".to_owned()), DEFAULT_API_URL, Some(0), 0, 0);
    let config = resolved.expect("numbers are passed on as given");
    assert_eq!(config.max_tokens, Some(0));
    assert_eq!(config.reply_count, 0);
    assert_eq!(config.timeout_secs, 0);
    let resolved = resolve_config(Some("k".to_owned()), DEFAULT_API_URL, Some(u32::MAX), u32::MAX, u64::MAX);
    let config = resolved.expect("numbers are passed on as given");
    assert_eq!(config.max_tokens, Some(u32::MAX));
    assert_eq!(config.reply_count, u32::MAX);
    assert_eq!(config.timeout_secs, u64::MAX);
}
