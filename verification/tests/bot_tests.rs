use customai::bot::{ai_reply_text, decide_callback, decide_message, msg, prompt, CallbackAction, MessageAction};
use customai::config::{Locale, Prompts};
use customai::string_map::StringMap;

fn map(pairs: &[(&str, &str)]) -> StringMap {
    let mut m = StringMap::new();
    for (k, v) in pairs {
        m.insert(k.to_string(), v.to_string());
    }
    m
}

fn locale() -> Locale {
    Locale {
        messages: map(&[
            ("welcome_message", "Welcome!"),
            ("help_message", ""),
            ("reset_message", "History cleared."),
            ("about_message", "About this bot"),
            ("error_message", "Something went wrong"),
            ("faq_message", "FAQ text"),
        ]),
        buttons: map(&[("about_button", "About"), ("faq_button", "FAQ"), ("reset_button", "Reset")]),
        callbacks: map(&[("about_callback", "about"), ("faq_callback", "faq"), ("reset_callback", "reset_chat"), ("silent_callback", "quiet")]),
    }
}

fn prompts() -> Prompts {
    map(&[("assistant_system_prompt", "You are helpful."), ("summary_prompt", "Summarize.")])
}

fn text_of(a: &MessageAction<String>) -> Option<&str> {
    match a {
        MessageAction::Reset { text } | MessageAction::Welcome { text } => Some(text.as_str()),
        _ => None,
    }
}

#[test]
fn msg_returns_text_or_empty() {
    let l = locale();
    assert_eq!(msg(&l, "welcome_message"), "Welcome!");
    assert_eq!(msg(&l, "missing_message"), "");
}

#[test]
fn prompt_returns_known_prompts() {
    let p = prompts();
    assert_eq!(prompt(&p, "summary_prompt"), Some("Summarize."));
    assert_eq!(prompt(&p, "nothing"), None);
}

#[test]
fn reset_command_resets() {
    let a = decide_message(&prompts(), &locale(), "/reset");
    assert!(matches!(a, MessageAction::Reset { .. }));
    assert_eq!(text_of(&a), Some("History cleared."));
}

#[test]
fn start_command_welcomes() {
    let a = decide_message(&prompts(), &locale(), "/start");
    assert!(matches!(a, MessageAction::Welcome { .. }));
    assert_eq!(text_of(&a), Some("Welcome!"));
}

#[test]
fn help_with_empty_message_falls_back_to_welcome() {
    let a = decide_message(&prompts(), &locale(), "/help");
    assert!(matches!(a, MessageAction::Welcome { .. }));
    assert_eq!(text_of(&a), Some("Welcome!"));
}

fn command_parts(a: MessageAction<String>) -> (Option<String>, Option<String>, String) {
    match a {
        MessageAction::Command { reply, system_prompt, input } => (reply, system_prompt, input),
        _ => panic!("expected a command"),
    }
}

#[test]
fn other_command_replies_with_its_message() {
    let (reply, system_prompt, input) = command_parts(decide_message(&prompts(), &locale(), "/about"));
    assert_eq!(reply.as_deref(), Some("About this bot"));
    assert_eq!(system_prompt, None);
    assert_eq!(input, "/about");
}

#[test]
fn command_with_prompt_asks_ai() {
    let (reply, system_prompt, input) = command_parts(decide_message(&prompts(), &locale(), "/summary"));
    assert_eq!(reply, None);
    assert_eq!(system_prompt.as_deref(), Some("Summarize."));
    assert_eq!(input, "/summary");
}

#[test]
fn unknown_command_does_nothing() {
    let (reply, system_prompt, _) = command_parts(decide_message(&prompts(), &locale(), "/summary some text"));
    assert_eq!((reply, system_prompt), (None, None));
    let (reply, system_prompt, input) = command_parts(decide_message(&prompts(), &locale(), "/"));
    assert_eq!((reply, system_prompt, input.as_str()), (None, None, "/"));
}

#[test]
fn plain_text_asks_ai_with_system_prompt() {
    match decide_message(&prompts(), &locale(), "What is Rust?") {
        MessageAction::AskAi { system_prompt, input } => {
            assert_eq!(system_prompt, "You are helpful.");
            assert_eq!(input, "What is Rust?");
        }
        _ => panic!("expected an AI request"),
    }
}

#[test]
fn plain_text_without_system_prompt_asks_with_empty_prompt() {
    let empty = StringMap::new();
    match decide_message(&empty, &locale(), "hi") {
        MessageAction::AskAi { system_prompt, input } => {
            assert_eq!(system_prompt, "");
            assert_eq!(input, "hi");
        }
        _ => panic!("expected an AI request"),
    }
}

#[test]
fn callback_reset() {
    let mut l = locale();
    l.callbacks.insert("reset_callback".to_string(), "reset".to_string());
    match decide_callback(&l, "reset") {
        CallbackAction::Reset { text } => assert_eq!(text, "History cleared."),
        _ => panic!("expected a reset"),
    }
}

#[test]
fn callback_reply() {
    match decide_callback(&locale(), "about") {
        CallbackAction::Reply { text } => assert_eq!(text, "About this bot"),
        _ => panic!("expected a reply"),
    }
}

#[test]
fn callback_action_named_by_key_not_data() {
    // the data "reset_chat" belongs to the key "reset_callback": the action is "reset"
    match decide_callback(&locale(), "reset_chat") {
        CallbackAction::Reset { text } => assert_eq!(text, "History cleared."),
        _ => panic!("expected a reset"),
    }
}

#[test]
fn callback_without_message() {
    assert!(matches!(decide_callback(&locale(), "quiet"), CallbackAction::NoMessage));
}

#[test]
fn callback_unknown_data() {
    assert!(matches!(decide_callback(&locale(), "nope"), CallbackAction::Unknown));
}

#[test]
fn ai_reply_sanitizes_answer() {
    assert_eq!(ai_reply_text(&locale(), Some("**Bold** answer ")), "<b>Bold</b> answer");
}

#[test]
fn ai_reply_uses_error_message_on_failure() {
    assert_eq!(ai_reply_text(&locale(), None), "Something went wrong");
}
