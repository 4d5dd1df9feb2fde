//! Conversation assembly.
//!
//! A conversation is an ordered list of role-tagged messages: first the
//! fixed system prompt for the chosen assistant purpose, then one user
//! message holding the prepend text when that text is non-empty, then one
//! user message holding the piped input whenever input was piped — even
//! when the piped text is empty, so the remote model can notice absent
//! input. Whether input was piped is decided at the process boundary and
//! passed in, which keeps assembly a pure function of its arguments.

use vstd::prelude::*;

verus! {

/// The provenance tag of a message.
#[derive(Debug, Clone, Copy, PartialEq, Eq, Structural)]
pub enum Role {
    System,
    User,
    Assistant,
}

/// One role-tagged message of a conversation.
#[derive(Debug, Clone, PartialEq)]
pub struct Message {
    pub role: Role,
    pub content: String,
}

/// The mathematical value of a message: its role and its content as a
/// character sequence.
pub struct MessageModel {
    pub role: Role,
    pub content: Seq<char>,
}

impl View for Message {
    type V = MessageModel;

    open spec fn view(&self) -> MessageModel {
        MessageModel { role: self.role, content: self.content@ }
    }
}

/// Which fixed system prompt a run uses. The selection is immutable for
/// the run.
#[derive(Debug, Clone, Copy, PartialEq, Eq, Structural)]
pub enum AssistantPurpose {
    CodeReviewer,
    Default,
}

/// The fixed system-prompt text for a purpose.
pub open spec fn spec_prompt(purpose: AssistantPurpose) -> Seq<char> {
    match purpose {
        AssistantPurpose::Default => "You are a helpful assistant."@,
        AssistantPurpose::CodeReviewer => "You are a helpful assistant. How would you improve this code? Include line numbers in your comments so I can tell where you mean. "@,
    }
}

impl AssistantPurpose {
    /// The fixed system-prompt text for this purpose.
    pub fn to_string(&self) -> (s: String)
        ensures
            s@ == spec_prompt(*self),
    {
        match self {
            AssistantPurpose::Default => "You are a helpful assistant.".to_owned(),
            AssistantPurpose::CodeReviewer => "You are a helpful assistant. How would you improve this code? Include line numbers in your comments so I can tell where you mean. ".to_owned(),
        }
    }
}

/// The piped input as a character sequence, when input was piped at all.
pub open spec fn piped_view(piped_input: Option<&str>) -> Option<Seq<char>> {
    match piped_input {
        Some(text) => Some(text@),
        None => None,
    }
}

/// The conversation built from a prepend text, the piped input if any, and
/// the purpose: the system prompt first, then the prepend as a user message
/// when non-empty, then the piped input as a user message when present.
pub open spec fn spec_conversation(
    prepend: Seq<char>,
    piped: Option<Seq<char>>,
    purpose: AssistantPurpose,
) -> Seq<MessageModel> {
    let sys = seq![MessageModel { role: Role::System, content: spec_prompt(purpose) }];
    let with_prepend = if prepend.len() > 0 {
        sys.push(MessageModel { role: Role::User, content: prepend })
    } else {
        sys
    };
    match piped {
        Some(text) => with_prepend.push(MessageModel { role: Role::User, content: text }),
        None => with_prepend,
    }
}

/// Builds the ordered message list for one request: the system prompt for
/// `purpose`, the prepend text verbatim when non-empty, and the piped input
/// verbatim whenever input was piped, even if it is empty.
pub fn create_conversation(
    prepend: &str,
    piped_input: Option<&str>,
    purpose: &AssistantPurpose,
) -> (conversation: Vec<Message>)
    ensures
        conversation@.map_values(|m: Message| m@) == spec_conversation(
            prepend@,
            piped_view(piped_input),
            *purpose,
        ),
{
    let mut conversation: Vec<Message> = Vec::new();
    conversation.push(Message { role: Role::System, content: purpose.to_string() });
    if !prepend.is_empty() {
        conversation.push(Message { role: Role::User, content: prepend.to_owned() });
    }
    if let Some(text) = piped_input {
        conversation.push(Message { role: Role::User, content: text.to_owned() });
    }
    proof {
        assert(conversation@.map_values(|m: Message| m@) =~= spec_conversation(
            prepend@,
            piped_view(piped_input),
            *purpose,
        ));
    }
    conversation
}

/// Every conversation opens with the system message carrying the prompt
/// for its purpose, and everything after it is a user message.
pub proof fn lemma_conversation_starts_with_system(
    prepend: Seq<char>,
    piped: Option<Seq<char>>,
    purpose: AssistantPurpose,
)
    ensures
        spec_conversation(prepend, piped, purpose).len() >= 1,
        spec_conversation(prepend, piped, purpose)[0] == (MessageModel {
            role: Role::System,
            content: spec_prompt(purpose),
        }),
        forall|i: int|
            1 <= i < spec_conversation(prepend, piped, purpose).len()
                ==> spec_conversation(prepend, piped, purpose)[i].role == Role::User,
{
}

/// When no input was piped, no piped-input message is appended: the
/// conversation holds only the system message and, when the prepend text is
/// non-empty, the one user message carrying it.
pub proof fn lemma_no_pipe_no_piped_message(prepend: Seq<char>, purpose: AssistantPurpose)
    ensures
        spec_conversation(prepend, None, purpose).len() == (if prepend.len() > 0 {
            2int
        } else {
            1int
        }),
        spec_conversation(prepend, None, purpose)[0].role == Role::System,
        forall|i: int|
            0 <= i < spec_conversation(prepend, None, purpose).len()
                && spec_conversation(prepend, None, purpose)[i].role == Role::User
                ==> spec_conversation(prepend, None, purpose)[i].content == prepend,
{
}

/// For a non-empty prepend, the message at position 1 is a user message
/// holding exactly the prepend text; and unless the piped input happens to
/// equal the prepend, no other position holds such a message.
pub proof fn lemma_prepend_message(
    prepend: Seq<char>,
    piped: Option<Seq<char>>,
    purpose: AssistantPurpose,
)
    requires
        prepend.len() > 0,
    ensures
        spec_conversation(prepend, piped, purpose)[1] == (MessageModel {
            role: Role::User,
            content: prepend,
        }),
        piped != Some(prepend) ==> forall|i: int|
            0 <= i < spec_conversation(prepend, piped, purpose).len() && i != 1
                ==> spec_conversation(prepend, piped, purpose)[i] != (MessageModel {
                role: Role::User,
                content: prepend,
            }),
{
}

} // verus!
