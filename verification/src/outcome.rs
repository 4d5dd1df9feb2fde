//! The outcome of the exchange and how it is rendered.
//!
//! The transport hands back the candidate contents it received; picking
//! the reply out of them is decided here, for every shape the provider
//! can answer with. A provider answer without a usable first candidate is
//! a distinct error rather than a crash. The rendering decision — plain
//! text to standard output, markdown, or an error line to standard error —
//! is likewise computed here; the surrounding application only performs
//! the writes it is told.

use vstd::prelude::*;

verus! {

/// A failed exchange: the transport failed outright, or the provider
/// answered without a usable first candidate.
#[derive(Debug, Clone, PartialEq)]
pub enum TransportError {
    /// The provider returned no candidate with message content.
    EmptyResponse,
    /// The transport layer failed; the text describes how.
    Transport(String),
}

/// The human-readable description a transport error carries.
pub open spec fn spec_description(error: TransportError) -> Seq<char> {
    match error {
        TransportError::EmptyResponse => "empty response"@,
        TransportError::Transport(description) => description@,
    }
}

impl TransportError {
    /// The human-readable description of this error.
    pub fn description(&self) -> (text: String)
        ensures
            text@ == spec_description(*self),
    {
        match self {
            TransportError::EmptyResponse => "empty response".to_owned(),
            TransportError::Transport(description) => description.clone(),
        }
    }
}

/// Picks the reply out of the candidate contents the provider returned:
/// the content of the first candidate when there is one and it carries
/// content, and the empty-response error otherwise. Only the first
/// candidate is ever used.
pub fn first_choice_content(choices: Vec<Option<String>>) -> (reply: Result<
    String,
    TransportError,
>)
    ensures
        choices@.len() > 0 && choices@[0] is Some ==> (reply matches Ok(content)
            && content@ == choices@[0]->0@),
        choices@.len() == 0 || choices@[0] is None ==> reply == Err::<String, TransportError>(
            TransportError::EmptyResponse,
        ),
{
    let mut choices = choices;
    if choices.len() == 0 {
        return Err(TransportError::EmptyResponse);
    }
    match choices.remove(0) {
        Some(content) => Ok(content),
        None => Err(TransportError::EmptyResponse),
    }
}

/// What the renderer is to do: print the reply to standard output as plain
/// text followed by a newline, render it as markdown, or write an error
/// line to standard error.
#[derive(Debug, Clone, PartialEq)]
pub enum RenderAction {
    PlainText(String),
    Markdown(String),
    ErrorMessage(String),
}

/// Decides how an outcome is rendered: a reply goes to standard output,
/// verbatim as plain text or through the markdown formatter as asked; an
/// error becomes the line `Error: ` followed by its description, bound for
/// standard error, with nothing for standard output.
pub fn render_plan(outcome: Result<String, TransportError>, as_markdown: bool) -> (action:
    RenderAction)
    ensures
        !as_markdown ==> (outcome matches Ok(reply) ==> action == RenderAction::PlainText(reply)),
        as_markdown ==> (outcome matches Ok(reply) ==> action == RenderAction::Markdown(reply)),
        outcome matches Err(error) ==> (action matches RenderAction::ErrorMessage(line)
            && line@ == "Error: "@ + spec_description(error)),
{
    match outcome {
        Ok(reply) => if as_markdown {
            RenderAction::Markdown(reply)
        } else {
            RenderAction::PlainText(reply)
        },
        Err(error) => {
            let mut line = "Error: ".to_owned();
            let description = error.description();
            line.append(description.as_str());
            RenderAction::ErrorMessage(line)
        },
    }
}

/// The exit status of a run that reached the exchange: zero for a rendered
/// reply, one for a transport error. Treating transport errors as failures
/// is the one policy chosen here; the budget abort exits non-zero in any
/// case, before the exchange.
pub fn exit_code_for(outcome: &Result<String, TransportError>) -> (code: i32)
    ensures
        outcome is Ok <==> code == 0,
        outcome is Err <==> code == 1,
{
    match outcome {
        Ok(_) => 0,
        Err(_) => 1,
    }
}

} // verus!
