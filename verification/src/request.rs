//! Request planning.
//!
//! The settings of a run are resolved once — command-line flags override
//! the configuration record, which already carries the built-in defaults —
//! and the single chat-completion request is prepared from them: the
//! ordered conversation, exactly one candidate, no streaming. The request
//! is only ever produced after its prompt text has passed the token-budget
//! check; a run whose estimate exceeds the ceiling gets the abort record
//! instead, so nothing is left to send.

use vstd::prelude::*;

use crate::config::AppConfig;
use crate::conversation::{
    create_conversation, piped_view, spec_conversation, AssistantPurpose, Message,
};
use crate::limiter::{check, prompt_text, spec_prompt_text, BudgetAbort, LimitOutcome};
use crate::tokens::token_count;

verus! {

/// The command-line surface of a run, as the frontend parsed it: the
/// optional overrides, the prepend text (empty when the flag was not
/// given), and the two boolean switches. Temperature and nucleus-sampling
/// values are carried as decimal text; the library does no arithmetic on
/// them.
#[derive(Debug, Clone, PartialEq)]
pub struct CliOptions {
    pub prepend: String,
    pub max_tokens: Option<i32>,
    pub temperature: Option<String>,
    pub top_p: Option<String>,
    pub markdown: bool,
    pub code_review: bool,
}

/// The settings of one run, resolved once and read-only thereafter.
/// Streaming is always off: only a single blocking exchange is supported.
#[derive(Debug, Clone, PartialEq)]
pub struct RequestSettings {
    pub model: String,
    pub max_tokens: i32,
    pub temperature: String,
    pub top_p: String,
    pub stream: bool,
    pub render_markdown: bool,
}

/// The default nucleus-sampling value, used when no flag overrides it.
pub open spec fn spec_default_top_p() -> Seq<char> {
    "0.95"@
}

/// Which system prompt a run uses, by the switch the command line gave.
pub fn choose_purpose(code_review: bool) -> (purpose: AssistantPurpose)
    ensures
        purpose == (if code_review {
            AssistantPurpose::CodeReviewer
        } else {
            AssistantPurpose::Default
        }),
{
    if code_review {
        AssistantPurpose::CodeReviewer
    } else {
        AssistantPurpose::Default
    }
}

/// Resolves the settings of a run: every flag that was given overrides the
/// configuration record, every other setting comes from it (the record
/// itself already holds the built-in defaults); the nucleus-sampling value
/// defaults on its own, streaming is always off, and markdown rendering
/// follows its switch.
pub fn resolve_settings(config: &AppConfig, cli: &CliOptions) -> (settings: RequestSettings)
    ensures
        settings.model@ == config.model@,
        settings.max_tokens == (match cli.max_tokens {
            Some(n) => n,
            None => config.max_tokens,
        }),
        settings.temperature@ == (match cli.temperature {
            Some(t) => t@,
            None => config.temperature@,
        }),
        settings.top_p@ == (match cli.top_p {
            Some(p) => p@,
            None => spec_default_top_p(),
        }),
        settings.stream == false,
        settings.render_markdown == cli.markdown,
{
    RequestSettings {
        model: config.model.clone(),
        max_tokens: match cli.max_tokens {
            Some(n) => n,
            None => config.max_tokens,
        },
        temperature: match &cli.temperature {
            Some(t) => t.clone(),
            None => config.temperature.clone(),
        },
        top_p: match &cli.top_p {
            Some(p) => p.clone(),
            None => "0.95".to_owned(),
        },
        stream: false,
        render_markdown: cli.markdown,
    }
}

/// The single chat-completion request of a run: the model, the ordered
/// message list, the sampling parameters, exactly one candidate, and no
/// streaming.
#[derive(Debug, Clone, PartialEq)]
pub struct ChatRequest {
    pub model: String,
    pub messages: Vec<Message>,
    pub temperature: String,
    pub top_p: String,
    pub n: i32,
    pub stream: bool,
    pub max_tokens: i32,
}

/// Prepares the one request of a run, or aborts it on the token budget.
/// The prompt text — prepend, piped input, system prompt, in that order —
/// is estimated first: an estimate strictly over the ceiling yields the
/// abort record carrying both figures, and no request exists to send; any
/// other estimate, equality included, yields the request with the full
/// conversation, exactly one candidate and streaming off.
pub fn plan_request(
    prepend: &str,
    piped_input: Option<&str>,
    settings: &RequestSettings,
    purpose: &AssistantPurpose,
) -> (planned: Result<ChatRequest, BudgetAbort>)
    ensures
        token_count(spec_prompt_text(prepend@, piped_view(piped_input), *purpose))
            > settings.max_tokens <==> planned is Err,
        planned matches Err(abort) ==> abort == (BudgetAbort {
            estimated: token_count(
                spec_prompt_text(prepend@, piped_view(piped_input), *purpose),
            ) as usize,
            limit: settings.max_tokens,
        }),
        planned matches Ok(request) ==> {
            &&& request.messages@.map_values(|m: Message| m@) == spec_conversation(
                prepend@,
                piped_view(piped_input),
                *purpose,
            )
            &&& request.model@ == settings.model@
            &&& request.temperature@ == settings.temperature@
            &&& request.top_p@ == settings.top_p@
            &&& request.n == 1
            &&& request.stream == false
            &&& request.max_tokens == settings.max_tokens
        },
{
    let text = prompt_text(prepend, piped_input, purpose);
    match check(text.as_str(), settings.max_tokens) {
        LimitOutcome::Abort(abort) => Err(abort),
        LimitOutcome::Proceed => {
            let messages = create_conversation(prepend, piped_input, purpose);
            Ok(ChatRequest {
                model: settings.model.clone(),
                messages,
                temperature: settings.temperature.clone(),
                top_p: settings.top_p.clone(),
                n: 1,
                stream: false,
                max_tokens: settings.max_tokens,
            })
        },
    }
}

} // verus!
