//! The two messages that make up a request: the system instruction, then the
//! user's input.

use vstd::prelude::*;

verus! {

/// Who speaks in a message.
#[derive(Clone, Copy, Debug, PartialEq, Eq, Structural)]
pub enum Role {
    System,
    User,
}

/// One message of a conversation.
#[derive(Clone, Debug, PartialEq, Eq)]
pub struct ConversationMessage {
    pub role: Role,
    pub content: String,
}

/// `messages` is exactly the system message `prompt` followed by the user
/// message `input`.
pub open spec fn is_conversation(
    messages: Seq<ConversationMessage>,
    prompt: Seq<char>,
    input: Seq<char>,
) -> bool {
    &&& messages.len() == 2
    &&& messages[0].role == Role::System
    &&& messages[0].content@ == prompt
    &&& messages[1].role == Role::User
    &&& messages[1].content@ == input
}

/// The conversation for a system instruction and a user input.
pub fn build_conversation(prompt: String, input: String) -> (messages: Vec<ConversationMessage>)
    ensures
        is_conversation(messages@, prompt@, input@),
{
    let mut messages: Vec<ConversationMessage> = Vec::new();
    messages.push(ConversationMessage { role: Role::System, content: prompt });
    messages.push(ConversationMessage { role: Role::User, content: input });
    messages
}

} // verus!
