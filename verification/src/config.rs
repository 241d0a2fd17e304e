//! Resolution of the request configuration from what the command line and the
//! environment gave.

use vstd::prelude::*;
use crate::error::ClientError;

verus! {

/// The environment variable that holds the credential.
pub const CREDENTIAL_VARIABLE: &'static str = "CHATGPT_API_KEY";

/// The endpoint used where none is given.
pub const DEFAULT_API_URL: &'static str = "https://api.openai.com/v1/chat/completions";

/// The model that every request names.
pub const MODEL: &'static str = "gpt-4o-mini";

/// The number of replies asked for where none is given.
pub const DEFAULT_REPLY_COUNT: u32 = 1;

/// The request timeout in seconds where none is given.
pub const DEFAULT_TIMEOUT_SECS: u64 = 30;

/// What a request is sent with, apart from the sampling weights, which the
/// caller passes to the service untouched.
#[derive(Clone, Debug, PartialEq, Eq)]
pub struct RequestConfig {
    /// The credential, taken from the environment only.
    pub credential: String,
    /// The endpoint, in the normal form of a parsed URL.
    pub api_url: String,
    /// The limit on generated tokens; `None` leaves it to the service.
    pub max_tokens: Option<u32>,
    /// How many replies the service is asked for.
    pub reply_count: u32,
    /// The request timeout in seconds.
    pub timeout_secs: u64,
}

/// `url::ParseError`, the reason why a text is no URL. Nothing is said of
/// what it holds: it is only told apart from success.
#[verifier::external_type_specification]
#[verifier::external_body]
pub struct ExParseError(url::ParseError);

/// What `url::Url::parse` makes of a text: the serialization of the parsed
/// URL, or `None` where the text is no URL.
pub uninterp spec fn parsed_url(text: Seq<char>) -> Option<Seq<char>>;

/// Calls `url::Url::parse` and hands back the URL's serialization. The
/// contract only names the outcome: the same text always parses the same way.
#[verifier::external_body]
fn parse_url(text: &str) -> (parsed: Result<String, url::ParseError>)
    ensures
        parsed is Ok <==> parsed_url(text@) is Some,
        parsed matches Ok(url) ==> parsed_url(text@) == Some(url@),
{
    url::Url::parse(text).map(String::from)
}

/// The endpoint for a parse outcome.
pub open spec fn endpoint_of(parsed: Option<Seq<char>>) -> Result<Seq<char>, ClientError> {
    match parsed {
        Some(url) => Ok(url),
        None => Err(ClientError::InvalidEndpoint),
    }
}

/// The view of an endpoint result.
pub open spec fn endpoint_view(endpoint: Result<String, ClientError>) -> Result<
    Seq<char>,
    ClientError,
> {
    match endpoint {
        Ok(url) => Ok(url@),
        Err(e) => Err(e),
    }
}

/// Turns the outcome of parsing the endpoint into the endpoint or the
/// failure to report.
pub fn endpoint_from(parsed: Result<String, url::ParseError>) -> (endpoint: Result<
    String,
    ClientError,
>)
    ensures
        match parsed {
            Ok(url) => endpoint_view(endpoint) == Ok::<Seq<char>, ClientError>(url@),
            Err(_) => endpoint_view(endpoint) == Err::<Seq<char>, ClientError>(
                ClientError::InvalidEndpoint,
            ),
        },
{
    match parsed {
        Ok(url) => Ok(url),
        Err(_) => Err(ClientError::InvalidEndpoint),
    }
}

/// Checks that `api_url` is a well-formed URL and gives its normal form.
pub fn resolve_endpoint(api_url: &str) -> (endpoint: Result<String, ClientError>)
    ensures
        endpoint_view(endpoint) == endpoint_of(parsed_url(api_url@)),
{
    endpoint_from(parse_url(api_url))
}

/// The credential found in the environment, or the failure to report where
/// there is none.
pub fn require_credential(found: Option<String>) -> (credential: Result<String, ClientError>)
    ensures
        match found {
            Some(value) => credential == Ok::<String, ClientError>(value),
            None => credential == Err::<String, ClientError>(ClientError::MissingCredential),
        },
{
    match found {
        Some(value) => Ok(value),
        None => Err(ClientError::MissingCredential),
    }
}

/// Resolves the configuration. A missing credential is reported first, then
/// a malformed endpoint; numbers are passed on unchecked.
pub fn resolve_config(
    credential: Option<String>,
    api_url: &str,
    max_tokens: Option<u32>,
    reply_count: u32,
    timeout_secs: u64,
) -> (resolved: Result<RequestConfig, ClientError>)
    ensures
        credential is None ==> resolved == Err::<RequestConfig, ClientError>(
            ClientError::MissingCredential,
        ),
        credential is Some && parsed_url(api_url@) is None ==> resolved == Err::<
            RequestConfig,
            ClientError,
        >(ClientError::InvalidEndpoint),
        credential is Some && parsed_url(api_url@) is Some ==> (resolved matches Ok(config)
            && config.credential == credential->Some_0
            && config.api_url@ == parsed_url(api_url@)->Some_0
            && config.max_tokens == max_tokens
            && config.reply_count == reply_count
            && config.timeout_secs == timeout_secs),
{
    let credential = require_credential(credential)?;
    let api_url = resolve_endpoint(api_url)?;
    Ok(RequestConfig { credential, api_url, max_tokens, reply_count, timeout_secs })
}

} // verus!
