//! The ways in which a run can fail.

use vstd::prelude::*;
use vstd::string::*;

verus! {

/// Why a run ended without a reply. Every failure ends the run: nothing is
/// retried.
#[derive(Clone, Copy, Debug, PartialEq, Eq, Structural)]
pub enum ClientError {
    /// The environment holds no credential.
    MissingCredential,
    /// The endpoint is not a well-formed URL.
    InvalidEndpoint,
    /// The input stream could not be read.
    InputRead,
    /// The service could not be reached, refused, timed out or answered with
    /// something that is no completion.
    CompletionRequestFailed,
}

impl ClientError {
    /// The sentence shown to the user for this failure.
    pub open spec fn message_text(self) -> Seq<char> {
        match self {
            ClientError::MissingCredential => "An environment variable CHATGPT_API_KEY is required."@,
            ClientError::InvalidEndpoint => "API_URL must be a URL"@,
            ClientError::InputRead => "Failed to read inputs."@,
            ClientError::CompletionRequestFailed => "Failed to fetch a response from ChatGPT."@,
        }
    }

    /// The sentence shown to the user for this failure.
    pub fn message(&self) -> (text: String)
        ensures
            text@ == self.message_text(),
    {
        match self {
            ClientError::MissingCredential => String::from_str(
                "An environment variable CHATGPT_API_KEY is required.",
            ),
            ClientError::InvalidEndpoint => String::from_str("API_URL must be a URL"),
            ClientError::InputRead => String::from_str("Failed to read inputs."),
            ClientError::CompletionRequestFailed => String::from_str(
                "Failed to fetch a response from ChatGPT.",
            ),
        }
    }
}

} // verus!
