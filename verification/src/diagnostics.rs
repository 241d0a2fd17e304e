//! The lines written to the error stream in debug mode. The credential's
//! line shows a mask, never the value.

use vstd::prelude::*;
use vstd::string::*;

verus! {

/// How much the run writes to the error stream.
#[derive(Clone, Copy, Debug, PartialEq, Eq, Structural)]
pub enum Verbosity {
    /// Failures and notices only.
    Info,
    /// The debug lines as well.
    Debug,
}

/// The verbosity that the debug flag asks for. It is handed to the logger
/// when that is made; no process-wide setting is involved.
pub fn verbosity(debug: bool) -> (level: Verbosity)
    ensures
        level == (if debug {
            Verbosity::Debug
        } else {
            Verbosity::Info
        }),
{
    if debug {
        Verbosity::Debug
    } else {
        Verbosity::Info
    }
}

/// The line that shows the system instruction.
pub open spec fn prompt_line_text(prompt: Seq<char>) -> Seq<char> {
    "prompt: <"@ + prompt + ">"@
}

/// The line that stands for the credential: the same for every credential.
pub open spec fn credential_line_text(credential: Seq<char>) -> Seq<char> {
    "api_key: <***>"@
}

/// The line that shows the assembled input.
pub open spec fn input_line_text(input: Seq<char>) -> Seq<char> {
    "input: <"@ + input + ">"@
}

/// The line that shows the model that answered.
pub open spec fn model_line_text(model: Seq<char>) -> Seq<char> {
    "model: "@ + model
}

/// All that debug mode writes in a run that gets its reply, in the order
/// written.
pub open spec fn debug_report(
    prompt: Seq<char>,
    credential: Seq<char>,
    input: Seq<char>,
    model: Seq<char>,
) -> Seq<Seq<char>> {
    seq![
        prompt_line_text(prompt),
        credential_line_text(credential),
        input_line_text(input),
        model_line_text(model),
    ]
}

/// The line that shows the system instruction.
pub fn prompt_line(prompt: &str) -> (line: String)
    ensures
        line@ == prompt_line_text(prompt@),
{
    let mut line = String::from_str("prompt: <");
    line.append(prompt);
    line.append(">");
    line
}

/// The line that stands for the credential.
pub fn credential_line(credential: &str) -> (line: String)
    ensures
        line@ == credential_line_text(credential@),
{
    String::from_str("api_key: <***>")
}

/// The line that shows the assembled input.
pub fn input_line(input: &str) -> (line: String)
    ensures
        line@ == input_line_text(input@),
{
    let mut line = String::from_str("input: <");
    line.append(input);
    line.append(">");
    line
}

/// The line that shows the model that answered.
pub fn model_line(model: &str) -> (line: String)
    ensures
        line@ == model_line_text(model@),
{
    let mut line = String::from_str("model: ");
    line.append(model);
    line
}

/// All the lines of a run that gets its reply, in the order written.
pub fn debug_lines(prompt: &str, credential: &str, input: &str, model: &str) -> (lines: Vec<
    String,
>)
    ensures
        lines@.len() == 4,
        forall|i: int|
            0 <= i < 4 ==> (#[trigger] lines@[i])@ == debug_report(
                prompt@,
                credential@,
                input@,
                model@,
            )[i],
{
    let mut lines: Vec<String> = Vec::new();
    lines.push(prompt_line(prompt));
    lines.push(credential_line(credential));
    lines.push(input_line(input));
    lines.push(model_line(model));
    lines
}

/// What debug mode writes does not depend on the credential: two runs that
/// differ in nothing else write the same lines.
pub proof fn credential_is_never_shown(
    prompt: Seq<char>,
    input: Seq<char>,
    model: Seq<char>,
    credential: Seq<char>,
    other: Seq<char>,
)
    ensures
        credential_line_text(credential) == credential_line_text(other),
        debug_report(prompt, credential, input, model) == debug_report(prompt, other, input, model),
{
}

} // verus!
