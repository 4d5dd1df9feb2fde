//! The token-budget policy.
//!
//! Before any request is sent, the text that will be charged — the prepend,
//! the piped input and the system prompt, concatenated in that order with no
//! separators — is scored by the token estimator and compared against the
//! configured ceiling. A strictly greater estimate aborts the run, carrying
//! both figures; an estimate equal to the ceiling is allowed through.

use vstd::prelude::*;

use crate::conversation::{spec_prompt, AssistantPurpose};
use crate::tokens::{count_tokens, token_count};

verus! {

/// The budget check failed: the estimate exceeded the configured ceiling.
/// Both figures are carried so the caller can report them before stopping.
#[derive(Debug, Clone, PartialEq, Eq)]
pub struct BudgetAbort {
    pub estimated: usize,
    pub limit: i32,
}

/// The decision of the budget check.
#[derive(Debug, Clone, PartialEq, Eq)]
pub enum LimitOutcome {
    Proceed,
    Abort(BudgetAbort),
}

/// The text whose token cost is charged against the ceiling: prepend, then
/// piped input (nothing when no input was piped), then the system prompt,
/// with no separators.
pub open spec fn spec_prompt_text(
    prepend: Seq<char>,
    piped: Option<Seq<char>>,
    purpose: AssistantPurpose,
) -> Seq<char> {
    prepend + (match piped {
        Some(text) => text,
        None => Seq::<char>::empty(),
    }) + spec_prompt(purpose)
}

/// Concatenates prepend, piped input and system prompt in that order, with
/// no separators, for the budget check.
pub fn prompt_text(
    prepend: &str,
    piped_input: Option<&str>,
    purpose: &AssistantPurpose,
) -> (text: String)
    ensures
        text@ == spec_prompt_text(prepend@, crate::conversation::piped_view(piped_input), *purpose),
{
    let mut text = prepend.to_owned();
    if let Some(piped) = piped_input {
        text.append(piped);
    }
    let prompt = purpose.to_string();
    text.append(prompt.as_str());
    proof {
        assert(text@ =~= spec_prompt_text(
            prepend@,
            crate::conversation::piped_view(piped_input),
            *purpose,
        ));
    }
    text
}

/// Compares the estimated token cost of `text` against the ceiling
/// `max_tokens`: a strictly greater estimate aborts, carrying the estimate
/// and the ceiling; anything else — equality included — proceeds.
pub fn check(text: &str, max_tokens: i32) -> (outcome: LimitOutcome)
    ensures
        token_count(text@) > max_tokens ==> outcome == LimitOutcome::Abort(
            BudgetAbort { estimated: token_count(text@) as usize, limit: max_tokens },
        ),
        token_count(text@) <= max_tokens ==> outcome == LimitOutcome::Proceed,
{
    let estimated = count_tokens(text);
    if max_tokens < 0 || estimated > max_tokens as usize {
        LimitOutcome::Abort(BudgetAbort { estimated, limit: max_tokens })
    } else {
        LimitOutcome::Proceed
    }
}

} // verus!
