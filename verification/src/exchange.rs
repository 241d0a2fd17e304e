//! The course of one run, as decisions between the caller's reads and sends:
//! whether the stream must be read, what is sent, and what the service's
//! answer amounts to.

use vstd::prelude::*;
use vstd::string::*;
use crate::config::RequestConfig;
use crate::conversation::{build_conversation, is_conversation, ConversationMessage};
use crate::error::ClientError;
use crate::input::{assembled_input, explicit_input, get_input, join_lines, joined};

verus! {

/// The one request of a run.
#[derive(Debug)]
pub struct Request {
    pub config: RequestConfig,
    pub conversation: Vec<ConversationMessage>,
}

/// A run that waits for the lines of the input stream.
#[derive(Debug)]
pub struct Pending {
    pub config: RequestConfig,
    pub prompt: String,
}

/// What the caller has to do next.
#[derive(Debug)]
pub enum NextStep {
    /// Read the input stream to its end and hand the lines to
    /// [`Pending::resume`].
    ReadStream(Pending),
    /// Send the request.
    Send(Request),
}

/// What the service answered: its model identifier and the text of each
/// reply, in the order given.
#[derive(Debug)]
pub struct CompletionResult {
    pub model: String,
    pub replies: Vec<String>,
}

/// What a successful run reports: the text to print and the model that
/// answered.
#[derive(Debug)]
pub struct Output {
    pub text: String,
    pub model: String,
}

/// `request` carries `config` and the conversation of `prompt` and `input`.
pub open spec fn is_request(
    request: Request,
    config: RequestConfig,
    prompt: Seq<char>,
    input: Seq<char>,
) -> bool {
    &&& request.config == config
    &&& is_conversation(request.conversation@, prompt, input)
}

/// `next` is the first step of a run with these arguments: arguments that
/// say something by themselves go straight into the request, and the stream
/// is not asked for; otherwise the stream has to be read first.
pub open spec fn begins(
    config: RequestConfig,
    prompt: Seq<char>,
    inputs: Seq<String>,
    next: NextStep,
) -> bool {
    match explicit_input(inputs) {
        Some(text) => next matches NextStep::Send(request) && is_request(
            request,
            config,
            prompt,
            text,
        ),
        None => next matches NextStep::ReadStream(pending) && pending.config == config
            && pending.prompt@ == prompt,
    }
}

/// `next` is how `pending` goes on with what reading the stream gave: its
/// lines, or `None` where reading failed. The lines, joined by line feeds,
/// are the user message; a stream without lines gives the empty message.
pub open spec fn resumes(
    pending: Pending,
    stream: Option<Vec<String>>,
    next: Result<Request, ClientError>,
) -> bool {
    match stream {
        Some(lines) => next matches Ok(request) && is_request(
            request,
            pending.config,
            pending.prompt@,
            joined(lines@),
        ),
        None => next matches Err(e) && e == ClientError::InputRead,
    }
}

/// Starts a run: decides between sending at once and reading the stream.
pub fn begin(config: RequestConfig, prompt: String, inputs: &[String]) -> (next: NextStep)
    ensures
        begins(config, prompt@, inputs@, next),
{
    match get_input(inputs) {
        Some(text) => NextStep::Send(
            Request { config, conversation: build_conversation(prompt, text) },
        ),
        None => NextStep::ReadStream(Pending { config, prompt }),
    }
}

impl Pending {
    /// Goes on with what reading the stream gave: its lines, or `None` where
    /// reading failed.
    pub fn resume(self, stream: Option<Vec<String>>) -> (next: Result<Request, ClientError>)
        ensures
            resumes(self, stream, next),
    {
        match stream {
            Some(lines) => {
                let input = join_lines(lines.as_slice());
                Ok(
                    Request {
                        config: self.config,
                        conversation: build_conversation(self.prompt, input),
                    },
                )
            },
            None => Err(ClientError::InputRead),
        }
    }
}

/// Whichever way a run takes, by the arguments alone or through a stream
/// that could be read, the request it sends carries the configuration, the
/// system instruction and the assembled input.
pub proof fn request_carries_assembled_input(
    config: RequestConfig,
    prompt: Seq<char>,
    inputs: Seq<String>,
    lines: Vec<String>,
    first: NextStep,
    second: Result<Request, ClientError>,
)
    requires
        begins(config, prompt, inputs, first),
        first matches NextStep::ReadStream(pending) ==> resumes(pending, Some(lines), second),
    ensures
        match first {
            NextStep::Send(request) => is_request(
                request,
                config,
                prompt,
                assembled_input(inputs, lines@),
            ),
            NextStep::ReadStream(_) => second matches Ok(request) && is_request(
                request,
                config,
                prompt,
                assembled_input(inputs, lines@),
            ),
        },
{
}

/// `outcome` is what `response` amounts to. `None` stands for a send from
/// which no completion came back, for whatever reason. Only the first reply
/// is read; an answer without a reply is no completion.
pub open spec fn concludes(
    response: Option<CompletionResult>,
    outcome: Result<Output, ClientError>,
) -> bool {
    match response {
        Some(result) => if result.replies@.len() > 0 {
            outcome matches Ok(output) && output.text@ == result.replies@[0]@ && output.model@
                == result.model@
        } else {
            outcome matches Err(e) && e == ClientError::CompletionRequestFailed
        },
        None => outcome matches Err(e) && e == ClientError::CompletionRequestFailed,
    }
}

/// The process exit status for the end of a run: zero for a reply, one for
/// any failure.
pub open spec fn status_of(outcome: Result<Output, ClientError>) -> u8 {
    match outcome {
        Ok(_) => 0u8,
        Err(_) => 1u8,
    }
}

/// The text printed to standard output at the end of a run: the reply and a
/// line feed, and nothing at all after a failure.
pub open spec fn printed_text(outcome: Result<Output, ClientError>) -> Seq<char> {
    match outcome {
        Ok(output) => output.text@ + seq!['\n'],
        Err(_) => Seq::empty(),
    }
}

/// Ends a run with what the caller's send gave: the completion, or `None`
/// where none came back.
pub fn conclude(response: Option<CompletionResult>) -> (outcome: Result<Output, ClientError>)
    ensures
        concludes(response, outcome),
{
    match response {
        Some(result) => {
            let CompletionResult { model, mut replies } = result;
            if replies.len() > 0 {
                let text = replies.swap_remove(0);
                Ok(Output { text, model })
            } else {
                Err(ClientError::CompletionRequestFailed)
            }
        },
        None => Err(ClientError::CompletionRequestFailed),
    }
}

/// The process exit status for the end of a run.
pub fn exit_status(outcome: &Result<Output, ClientError>) -> (status: u8)
    ensures
        status == status_of(*outcome),
{
    match outcome {
        Ok(_) => 0,
        Err(_) => 1,
    }
}

/// The text to print to standard output at the end of a run.
pub fn printed(outcome: &Result<Output, ClientError>) -> (text: String)
    ensures
        text@ == printed_text(*outcome),
{
    match outcome {
        Ok(output) => {
            let mut text = output.text.clone();
            text.append("\n");
            proof {
                reveal_strlit("\n");
                assert("\n"@ == seq!['\n']);
            }
            text
        },
        Err(_) => String::new(),
    }
}

/// A send from which no completion came back ends the run in
/// `CompletionRequestFailed`, with a non-zero status and nothing printed.
pub proof fn failed_request_prints_nothing(
    response: Option<CompletionResult>,
    outcome: Result<Output, ClientError>,
)
    requires
        response is None || response->Some_0.replies@.len() == 0,
        concludes(response, outcome),
    ensures
        outcome == Err::<Output, ClientError>(ClientError::CompletionRequestFailed),
        status_of(outcome) != 0,
        printed_text(outcome) == Seq::<char>::empty(),
{
}

/// A reply is printed on its own line, with status zero.
pub proof fn reply_is_printed(
    response: Option<CompletionResult>,
    outcome: Result<Output, ClientError>,
)
    requires
        response is Some && response->Some_0.replies@.len() > 0,
        concludes(response, outcome),
    ensures
        status_of(outcome) == 0,
        printed_text(outcome) == response->Some_0.replies@[0]@ + seq!['\n'],
{
}

} // verus!
