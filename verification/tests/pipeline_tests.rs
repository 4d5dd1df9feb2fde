use pipe_gpt::config::AppConfig;
use pipe_gpt::conversation::{create_conversation, AssistantPurpose, Role};
use pipe_gpt::limiter::{check, prompt_text, LimitOutcome};
use pipe_gpt::outcome::{exit_code_for, first_choice_content, render_plan, RenderAction, TransportError};
use pipe_gpt::request::{choose_purpose, plan_request, resolve_settings, CliOptions, RequestSettings};
use pipe_gpt::tokens::count_tokens;

fn default_cli() -> CliOptions {
    CliOptions {
        prepend: String::new(),
        max_tokens: None,
        temperature: None,
        top_p: None,
        markdown: false,
        code_review: false,
    }
}

fn settings_with_max_tokens(max_tokens: i32) -> RequestSettings {
    let mut settings = resolve_settings(&AppConfig::default(), &default_cli());
    settings.max_tokens = max_tokens;
    settings
}

#[test]
fn test_create_conversation_no_pipe() {
    let p_text = "This is the prepend";

    let prepend = p_text;
    let purpose = AssistantPurpose::Default;

    let conversation = create_conversation(prepend, None, &purpose);
    assert_eq!(conversation.len(), 2); // the len is only two because piping isn't active here
    assert_eq!(conversation[1].content, p_text);
}

#[test]
fn conversation_starts_with_the_system_prompt() {
    let conversation = create_conversation("", None, &AssistantPurpose::Default);
    assert_eq!(conversation.len(), 1);
    assert_eq!(conversation[0].role, Role::System);
    assert_eq!(conversation[0].content, "You are a helpful assistant.");

    let review = create_conversation("", None, &AssistantPurpose::CodeReviewer);
    assert_eq!(review[0].content, AssistantPurpose::CodeReviewer.to_string());
    assert_eq!(
        review[0].content,
        "You are a helpful assistant. How would you improve this code? \
         Include line numbers in your comments so I can tell where you mean. "
    );
}

#[test]
fn piped_input_is_appended_even_when_empty() {
    let conversation = create_conversation("", Some(""), &AssistantPurpose::Default);
    assert_eq!(conversation.len(), 2);
    assert_eq!(conversation[1].role, Role::User);
    assert_eq!(conversation[1].content, "");
}

#[test]
fn prepend_sits_at_position_one() {
    let conversation =
        create_conversation("translate this", Some("bonjour"), &AssistantPurpose::Default);
    assert_eq!(conversation.len(), 3);
    assert_eq!(conversation[1].role, Role::User);
    assert_eq!(conversation[1].content, "translate this");
    assert_eq!(conversation[2].role, Role::User);
    assert_eq!(conversation[2].content, "bonjour");
}

#[test]
fn token_estimate_counts_words_and_punctuation() {
    // Each word run is one token; each of `,` `!` `.` is one of its own.
    let sample_text = "Hello, world! This is a test to count tokens.";
    assert_eq!(count_tokens(sample_text), 12);

    assert_eq!(count_tokens("Hello, world!"), 4);
    assert_eq!(count_tokens("snake_case stays one_token"), 3);
    assert_eq!(count_tokens("  \t\n  "), 0);
    assert_eq!(count_tokens("!!"), 2);
}

#[test]
fn token_estimate_handles_text_beyond_ascii() {
    // Characters outside ASCII are classified as non-word, an accepted
    // approximation; the estimator must not crash on them.
    assert_eq!(count_tokens("h\u{e9}llo"), 3);
    assert_eq!(count_tokens("\u{3053}\u{3093}"), 2);
}

#[test]
fn token_estimate_is_deterministic_and_empty_counts_zero() {
    let text = "repeatable, surely!";
    assert_eq!(count_tokens(text), count_tokens(text));
    assert_eq!(count_tokens(""), 0);
}

#[test]
fn limiter_lets_an_estimate_equal_to_the_ceiling_through() {
    let text = "three plain words";
    assert_eq!(count_tokens(text), 3);
    assert_eq!(check(text, 3), LimitOutcome::Proceed);
    assert_eq!(check(text, 4), LimitOutcome::Proceed);
    match check(text, 2) {
        LimitOutcome::Abort(abort) => {
            assert_eq!(abort.estimated, 3);
            assert_eq!(abort.limit, 2);
        }
        LimitOutcome::Proceed => panic!("an estimate over the ceiling must abort"),
    }
}

#[test]
fn prompt_text_concatenates_in_order_without_separators() {
    let text = prompt_text("pre", Some("piped"), &AssistantPurpose::Default);
    assert_eq!(text, "prepipedYou are a helpful assistant.");

    let no_pipe = prompt_text("pre", None, &AssistantPurpose::Default);
    assert_eq!(no_pipe, "preYou are a helpful assistant.");
}

#[test]
fn resolve_settings_prefers_flags_over_the_config_record() {
    let config = AppConfig {
        api_url: "https://example.invalid/v1/".to_string(),
        model: "config-model".to_string(),
        max_tokens: 2048,
        temperature: "0.3".to_string(),
    };
    let cli = CliOptions {
        prepend: "p".to_string(),
        max_tokens: Some(64),
        temperature: Some("0.9".to_string()),
        top_p: Some("0.5".to_string()),
        markdown: true,
        code_review: true,
    };
    let settings = resolve_settings(&config, &cli);
    assert_eq!(settings.model, "config-model");
    assert_eq!(settings.max_tokens, 64);
    assert_eq!(settings.temperature, "0.9");
    assert_eq!(settings.top_p, "0.5");
    assert!(!settings.stream);
    assert!(settings.render_markdown);
    assert_eq!(choose_purpose(cli.code_review), AssistantPurpose::CodeReviewer);
}

#[test]
fn resolve_settings_falls_back_to_config_and_builtin_defaults() {
    let settings = resolve_settings(&AppConfig::default(), &default_cli());
    assert_eq!(settings.model, "gpt-4o");
    assert_eq!(settings.max_tokens, 8192);
    assert_eq!(settings.temperature, "0.6");
    assert_eq!(settings.top_p, "0.95");
    assert!(!settings.stream);
    assert!(!settings.render_markdown);
    assert_eq!(choose_purpose(false), AssistantPurpose::Default);
}

#[test]
fn piped_bonjour_renders_the_reply_verbatim() {
    // One full run short of the network: piped input, default settings,
    // a reply of "hello", plain-text rendering, exit status zero.
    let settings = resolve_settings(&AppConfig::default(), &default_cli());
    let planned = plan_request("", Some("bonjour"), &settings, &AssistantPurpose::Default);
    let request = planned.expect("a short prompt fits the default ceiling");
    assert_eq!(request.messages.len(), 2);
    assert_eq!(request.messages[1].content, "bonjour");
    assert_eq!(request.n, 1);
    assert!(!request.stream);

    let outcome = first_choice_content(vec![Some("hello".to_string())]);
    assert_eq!(exit_code_for(&outcome), 0);
    match render_plan(outcome, false) {
        RenderAction::PlainText(text) => assert_eq!(text, "hello"),
        other => panic!("expected plain text to stdout, got {:?}", other),
    }
}

#[test]
fn over_budget_input_aborts_before_any_request_exists() {
    let paragraph = "This paragraph is long enough that its estimated token count \
                     exceeds a ceiling of one, so the run must stop before any \
                     request is built or sent.";
    let settings = settings_with_max_tokens(1);
    let planned = plan_request("", Some(paragraph), &settings, &AssistantPurpose::Default);
    match planned {
        Err(abort) => {
            assert_eq!(abort.limit, 1);
            assert!(abort.estimated > 1);
        }
        Ok(_) => panic!("an over-budget run must not produce a request"),
    }
}

#[test]
fn first_choice_is_used_and_an_empty_answer_is_an_error() {
    let reply = first_choice_content(vec![
        Some("first".to_string()),
        Some("second".to_string()),
    ]);
    assert_eq!(reply.unwrap(), "first");

    let none_at_all = first_choice_content(Vec::new());
    assert_eq!(none_at_all.unwrap_err(), TransportError::EmptyResponse);

    let missing_message = first_choice_content(vec![None, Some("late".to_string())]);
    assert_eq!(missing_message.unwrap_err(), TransportError::EmptyResponse);
}

#[test]
fn errors_render_as_one_line_for_stderr() {
    match render_plan(Err(TransportError::Transport("connection refused".to_string())), false) {
        RenderAction::ErrorMessage(line) => assert_eq!(line, "Error: connection refused"),
        other => panic!("expected an error line, got {:?}", other),
    }
    match render_plan(Err(TransportError::EmptyResponse), true) {
        RenderAction::ErrorMessage(line) => assert_eq!(line, "Error: empty response"),
        other => panic!("expected an error line, got {:?}", other),
    }
    assert_eq!(exit_code_for(&Err(TransportError::EmptyResponse)), 1);
}

#[test]
fn markdown_rendering_is_chosen_by_the_switch() {
    match render_plan(Ok("# heading".to_string()), true) {
        RenderAction::Markdown(text) => assert_eq!(text, "# heading"),
        other => panic!("expected markdown rendering, got {:?}", other),
    }
}
