//! Assembly of the user message from positional arguments or from the lines
//! of the input stream.

use vstd::prelude::*;
use vstd::string::*;

verus! {

/// The texts of `parts` with a single line feed between neighbours; the empty
/// text for no parts.
pub open spec fn joined(parts: Seq<String>) -> Seq<char>
    decreases parts.len(),
{
    if parts.len() == 0 {
        Seq::empty()
    } else if parts.len() == 1 {
        parts[0]@
    } else {
        joined(parts.drop_last()) + seq!['\n'] + parts.last()@
    }
}

/// The text that stands for "nothing given, read the stream instead".
pub open spec fn sentinel() -> Seq<char> {
    seq!['-']
}

/// What the positional arguments say by themselves: their join, unless that is
/// empty or the sentinel.
pub open spec fn explicit_input(parts: Seq<String>) -> Option<Seq<char>> {
    let text = joined(parts);
    if text.len() == 0 || text == sentinel() {
        None
    } else {
        Some(text)
    }
}

/// The user message for the given arguments and stream lines: the arguments
/// where they say something, else the whole stream.
pub open spec fn assembled_input(parts: Seq<String>, stream: Seq<String>) -> Seq<char> {
    match explicit_input(parts) {
        Some(text) => text,
        None => joined(stream),
    }
}

/// The view of an optional text.
pub open spec fn text_of(value: Option<String>) -> Option<Seq<char>> {
    match value {
        Some(s) => Some(s@),
        None => None,
    }
}

/// Joins `parts` with line feeds.
pub fn join_lines(parts: &[String]) -> (text: String)
    ensures
        text@ == joined(parts@),
{
    let mut text = String::new();
    let mut i: usize = 0;
    while i < parts.len()
        invariant
            i <= parts@.len(),
            text@ == joined(parts@.take(i as int)),
        decreases parts@.len() - i,
    {
        if i > 0 {
            text.append("\n");
        }
        text.append(parts[i].as_str());
        proof {
            reveal_strlit("\n");
            let next = parts@.take(i + 1);
            assert(next.drop_last() == parts@.take(i as int));
            assert(next.last() == parts@[i as int]);
            assert("\n"@ == seq!['\n']);
        }
        i += 1;
    }
    proof {
        assert(parts@.take(parts@.len() as int) == parts@);
    }
    text
}

/// The positional arguments as one text, or `None` where the stream is to be
/// read: for no arguments, for arguments that join to nothing, and for the
/// single argument `-`.
pub fn get_input(inputs: &[String]) -> (found: Option<String>)
    ensures
        text_of(found) == explicit_input(inputs@),
{
    let text = join_lines(inputs);
    let dash = String::from_str("-");
    proof {
        reveal_strlit("-");
        assert("-"@ == sentinel());
    }
    if text.as_str().is_empty() || text == dash {
        None
    } else {
        Some(text)
    }
}

/// Only the single argument `-` joins to the sentinel: any longer sequence
/// holds a line feed.
pub proof fn sentinel_only_from_single_dash(parts: Seq<String>)
    ensures
        joined(parts) == sentinel() <==> parts.len() == 1 && parts[0]@ == sentinel(),
{
    assert(sentinel().len() == 1 && sentinel()[0] == '-');
    if parts.len() >= 2 {
        let head = joined(parts.drop_last());
        let text = head + seq!['\n'] + parts.last()@;
        assert(text.len() == head.len() + 1 + parts.last()@.len());
        assert(text[head.len() as int] == '\n');
    }
}

/// Arguments that are not the single `-` and do not join to nothing are
/// passed on verbatim as their join, whatever the stream holds.
pub proof fn explicit_arguments_are_kept(parts: Seq<String>, stream: Seq<String>)
    requires
        parts.len() > 0,
        !(parts.len() == 1 && parts[0]@ == sentinel()),
        joined(parts).len() > 0,
    ensures
        explicit_input(parts) == Some(joined(parts)),
        assembled_input(parts, stream) == joined(parts),
{
    sentinel_only_from_single_dash(parts);
}

/// No arguments at all, or arguments that join to `-`, make the whole stream
/// the input.
pub proof fn fallback_takes_whole_stream(parts: Seq<String>, stream: Seq<String>)
    requires
        parts.len() == 0 || joined(parts) == sentinel(),
    ensures
        explicit_input(parts) is None,
        assembled_input(parts, stream) == joined(stream),
{
}

/// The single argument `-` and no argument at all give the same input.
pub proof fn dash_is_like_no_arguments(parts: Seq<String>, stream: Seq<String>)
    requires
        parts.len() == 1,
        parts[0]@ == sentinel(),
    ensures
        assembled_input(parts, stream) == assembled_input(Seq::empty(), stream),
{
}

} // verus!
