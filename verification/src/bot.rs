//! What the bot answers: the decisions taken on an incoming message or a
//! pressed button, given the prompt and locale tables. Sending, deleting and
//! asking the AI are left to the caller, which performs the returned action.
use vstd::prelude::*;
use vstd::string::StringExecFns;
use vstd::string::StrSliceExecFns;
use crate::config::{Locale, Prompts};
use crate::html::{sanitize_html, sanitized};
use crate::text::{from_chars, lemma_replace_suffix, occurs_in, replace_all, to_chars};

verus! {

/// The text of message `key`; empty when the locale has none.
pub open spec fn message_text(locale: &Locale, key: Seq<char>) -> Seq<char> {
    if locale.messages@.contains_key(key) {
        locale.messages@[key]
    } else {
        Seq::empty()
    }
}

/// What to do about an incoming text message.
pub enum MessageAction<T> {
    /// Clear the chat's AI history, delete the bot's messages in the chat,
    /// then send `text`.
    Reset { text: T },
    /// Send `text` together with the keyboard of buttons.
    Welcome { text: T },
    /// Send `reply` when there is one; then, when there is a
    /// `system_prompt`, ask the AI about `input` under it and send its answer.
    Command { reply: Option<T>, system_prompt: Option<T>, input: T },
    /// Ask the AI about `input` under `system_prompt` and send its answer.
    AskAi { system_prompt: T, input: T },
}

impl View for MessageAction<String> {
    type V = MessageAction<Seq<char>>;

    open spec fn view(&self) -> MessageAction<Seq<char>> {
        match self {
            MessageAction::Reset { text } => MessageAction::Reset { text: text@ },
            MessageAction::Welcome { text } => MessageAction::Welcome { text: text@ },
            MessageAction::Command { reply, system_prompt, input } => MessageAction::Command {
                reply: match reply {
                    Some(r) => Some(r@),
                    None => None,
                },
                system_prompt: match system_prompt {
                    Some(p) => Some(p@),
                    None => None,
                },
                input: input@,
            },
            MessageAction::AskAi { system_prompt, input } => MessageAction::AskAi {
                system_prompt: system_prompt@,
                input: input@,
            },
        }
    }
}

/// What to do about a pressed button.
pub enum CallbackAction<T> {
    /// No button sends this callback data; nothing is done.
    Unknown,
    /// Clear the chat's AI history, delete the message that holds the button
    /// and the bot's messages in the chat, then send `text`.
    Reset { text: T },
    /// Send `text`.
    Reply { text: T },
    /// The button's action has no message; nothing is sent.
    NoMessage,
}

impl View for CallbackAction<String> {
    type V = CallbackAction<Seq<char>>;

    open spec fn view(&self) -> CallbackAction<Seq<char>> {
        match self {
            CallbackAction::Unknown => CallbackAction::Unknown,
            CallbackAction::Reset { text } => CallbackAction::Reset { text: text@ },
            CallbackAction::Reply { text } => CallbackAction::Reply { text: text@ },
            CallbackAction::NoMessage => CallbackAction::NoMessage,
        }
    }
}

/// The answer to the text `text`.
///
/// A text that starts with `/` is the command named by the rest of it:
/// `reset` resets the chat, `start` and `help` send their message (or the
/// welcome message when theirs is empty) with the keyboard, and any other
/// command sends its message when it has a non-empty one and, when a system
/// prompt is defined for it, puts the whole text to the AI under that prompt.
/// Any other text is put to the AI under the assistant's system prompt (empty
/// when there is none).
pub open spec fn message_decision(prompts: &Prompts, locale: &Locale, text: Seq<char>) -> MessageAction<Seq<char>> {
    if text.len() > 0 && text[0] == '/' {
        let cmd = text.skip(1);
        if cmd == "reset"@ {
            MessageAction::Reset { text: message_text(locale, "reset_message"@) }
        } else if cmd == "start"@ || cmd == "help"@ {
            let own = message_text(locale, cmd + "_message"@);
            MessageAction::Welcome {
                text: if own.len() == 0 { message_text(locale, "welcome_message"@) } else { own },
            }
        } else {
            let own = message_text(locale, cmd + "_message"@);
            let prompt_key = cmd + "_prompt"@;
            MessageAction::Command {
                reply: if own.len() == 0 { None } else { Some(own) },
                system_prompt: if prompts@.contains_key(prompt_key) {
                    Some(prompts@[prompt_key])
                } else {
                    None
                },
                input: text,
            }
        }
    } else {
        MessageAction::AskAi {
            system_prompt: if prompts@.contains_key("assistant_system_prompt"@) {
                prompts@["assistant_system_prompt"@]
            } else {
                Seq::empty()
            },
            input: text,
        }
    }
}

/// The answer to the button whose callback entry is named `callback_key`:
/// the action is that name without `_callback`; `reset` resets the chat, any
/// other action sends its message when it has a non-empty one.
pub open spec fn callback_decision(locale: &Locale, callback_key: Seq<char>) -> CallbackAction<Seq<char>> {
    let action = replace_all(callback_key, "_callback"@, ""@);
    if action == "reset"@ {
        CallbackAction::Reset { text: message_text(locale, "reset_message"@) }
    } else {
        let own = message_text(locale, action + "_message"@);
        if own.len() == 0 {
            CallbackAction::NoMessage
        } else {
            CallbackAction::Reply { text: own }
        }
    }
}

/// The text of message `key`; empty when the locale has none.
pub fn msg<'a>(locale: &'a Locale, key: &str) -> (res: &'a str)
    ensures
        res@ == message_text(locale, key@),
{
    let k = String::from_str(key);
    match locale.messages.get(&k) {
        Some(v) => v.as_str(),
        None => {
            proof {
                reveal_strlit("");
            }
            ""
        },
    }
}

/// The system prompt named `key`, if there is one.
pub fn prompt<'a>(prompts: &'a Prompts, key: &str) -> (res: Option<&'a str>)
    ensures
        match res {
            Some(p) => prompts@.contains_key(key@) && p@ == prompts@[key@],
            None => !prompts@.contains_key(key@),
        },
{
    let k = String::from_str(key);
    match prompts.get(&k) {
        Some(v) => Some(v.as_str()),
        None => None,
    }
}

/// The message text named `name` followed by `suffix`.
fn suffixed_message<'a>(locale: &'a Locale, name: &str, suffix: &str) -> (res: &'a str)
    ensures
        res@ == message_text(locale, name@ + suffix@),
{
    let mut key = String::from_str(name);
    key.append(suffix);
    msg(locale, key.as_str())
}

/// Decides the answer to an incoming text message.
pub fn decide_message(prompts: &Prompts, locale: &Locale, text: &str) -> (res: MessageAction<String>)
    ensures
        res@ == message_decision(prompts, locale, text@),
{
    let n = text.unicode_len();
    if n > 0 && text.get_char(0) == '/' {
        let cmd = String::from_str(text.substring_char(1, n));
        assert(cmd@ =~= text@.skip(1));
        if cmd == String::from_str("reset") {
            MessageAction::Reset { text: String::from_str(msg(locale, "reset_message")) }
        } else if cmd == String::from_str("start") || cmd == String::from_str("help") {
            let own = suffixed_message(locale, cmd.as_str(), "_message");
            if own.is_empty() {
                MessageAction::Welcome { text: String::from_str(msg(locale, "welcome_message")) }
            } else {
                MessageAction::Welcome { text: String::from_str(own) }
            }
        } else {
            let own = suffixed_message(locale, cmd.as_str(), "_message");
            let reply = if own.is_empty() {
                None
            } else {
                Some(String::from_str(own))
            };
            let mut prompt_key = String::from_str(cmd.as_str());
            prompt_key.append("_prompt");
            let system_prompt = match prompt(prompts, prompt_key.as_str()) {
                Some(p) => Some(String::from_str(p)),
                None => None,
            };
            MessageAction::Command { reply, system_prompt, input: String::from_str(text) }
        }
    } else {
        let system_prompt = match prompt(prompts, "assistant_system_prompt") {
            Some(p) => p,
            None => {
                proof {
                    reveal_strlit("");
                    assert(""@ =~= Seq::<char>::empty());
                }
                ""
            },
        };
        assert(system_prompt@ == (if prompts@.contains_key("assistant_system_prompt"@) {
            prompts@["assistant_system_prompt"@]
        } else {
            Seq::<char>::empty()
        }));
        MessageAction::AskAi {
            system_prompt: String::from_str(system_prompt),
            input: String::from_str(text),
        }
    }
}

/// Decides the answer to a pressed button that sent `data`.
///
/// The button's callback entry is one whose value is `data`; when several
/// entries hold that value, any of them may be the one taken.
pub fn decide_callback(locale: &Locale, data: &str) -> (res: CallbackAction<String>)
    ensures
        res is Unknown <==> forall|k: Seq<char>|
            #[trigger] locale.callbacks@.contains_key(k) ==> locale.callbacks@[k] != data@,
        !(res is Unknown) ==> exists|k: Seq<char>|
            #[trigger] locale.callbacks@.contains_key(k) && locale.callbacks@[k] == data@
                && res@ == callback_decision(locale, k),
{
    let d = String::from_str(data);
    match locale.callbacks.key_of_value(&d) {
        None => CallbackAction::Unknown,
        Some(key) => {
            proof {
                reveal_strlit("_callback");
            }
            let key_chars = to_chars(key.as_str());
            let pat = to_chars("_callback");
            let empty = to_chars("");
            let action = from_chars(&crate::text::replace_all_exec(&key_chars, &pat, &empty));
            let res = if action == String::from_str("reset") {
                CallbackAction::Reset { text: String::from_str(msg(locale, "reset_message")) }
            } else {
                let own = suffixed_message(locale, action.as_str(), "_message");
                if own.is_empty() {
                    CallbackAction::NoMessage
                } else {
                    CallbackAction::Reply { text: String::from_str(own) }
                }
            };
            assert(res@ == callback_decision(locale, key@));
            res
        },
    }
}

/// The text to send for an AI request: the answer made fit for Telegram, or
/// the error message when the request failed.
pub fn ai_reply_text(locale: &Locale, answer: Option<&str>) -> (res: String)
    ensures
        res@ == match answer {
            Some(a) => sanitized(a@),
            None => message_text(locale, "error_message"@),
        },
{
    match answer {
        Some(a) => sanitize_html(a),
        None => String::from_str(msg(locale, "error_message")),
    }
}

} // verus!

verus! {

/// A command other than `reset`, `start` and `help` puts the text to the AI
/// exactly when a system prompt is defined for it, and then under that prompt.
pub proof fn lemma_command_asks_ai_with_its_prompt(prompts: &Prompts, locale: &Locale, text: Seq<char>)
    requires
        text.len() > 0,
        text[0] == '/',
        text.skip(1) != "reset"@,
        text.skip(1) != "start"@,
        text.skip(1) != "help"@,
    ensures
        message_decision(prompts, locale, text) matches MessageAction::Command {
            system_prompt,
            input,
            ..
        } && input == text && (system_prompt is Some <==> prompts@.contains_key(
            text.skip(1) + "_prompt"@,
        )) && (system_prompt matches Some(p) ==> p == prompts@[text.skip(1) + "_prompt"@]),
{
}

/// Any text that is not a command is put to the AI unchanged.
pub proof fn lemma_plain_text_asks_ai(prompts: &Prompts, locale: &Locale, text: Seq<char>)
    requires
        text.len() == 0 || text[0] != '/',
    ensures
        message_decision(prompts, locale, text) matches MessageAction::AskAi { input, .. } && input
            == text,
{
}

/// `/start` and `/help` always answer with the keyboard.
pub proof fn lemma_start_and_help_welcome(prompts: &Prompts, locale: &Locale, text: Seq<char>)
    requires
        text == "/start"@ || text == "/help"@,
    ensures
        message_decision(prompts, locale, text) is Welcome,
{
    reveal_strlit("/start");
    reveal_strlit("/help");
    reveal_strlit("start");
    reveal_strlit("help");
    reveal_strlit("reset");
    assert("start"@[0] != "reset"@[0]);
    assert("help"@.len() != "reset"@.len());
    if text == "/start"@ {
        assert(text.skip(1) =~= "start"@);
    } else {
        assert(text.skip(1) =~= "help"@);
    }
}

} // verus!

verus! {

/// `/reset` always resets the chat and sends the reset message.
pub proof fn lemma_reset_command_resets(prompts: &Prompts, locale: &Locale)
    ensures
        message_decision(prompts, locale, "/reset"@) == (MessageAction::Reset {
            text: message_text(locale, "reset_message"@),
        }),
{
    reveal_strlit("/reset");
    reveal_strlit("reset");
    assert("/reset"@.skip(1) =~= "reset"@);
}

} // verus!

verus! {

/// `/start` and `/help` send the command's own message (`start_message` or
/// `help_message`) when it is not empty; only when it is empty or missing do
/// they send the welcome message instead. The keyboard goes with either.
pub proof fn lemma_start_and_help_send_their_message(
    prompts: &Prompts,
    locale: &Locale,
    text: Seq<char>,
    key: Seq<char>,
)
    requires
        (text == "/start"@ && key == "start_message"@) || (text == "/help"@ && key
            == "help_message"@),
    ensures
        message_decision(prompts, locale, text) == (MessageAction::Welcome {
            text: if locale.messages@.contains_key(key) && locale.messages@[key].len() > 0 {
                locale.messages@[key]
            } else if locale.messages@.contains_key("welcome_message"@) {
                locale.messages@["welcome_message"@]
            } else {
                Seq::empty()
            },
        }),
{
    reveal_strlit("/start");
    reveal_strlit("/help");
    reveal_strlit("start");
    reveal_strlit("help");
    reveal_strlit("reset");
    reveal_strlit("_message");
    reveal_strlit("start_message");
    reveal_strlit("help_message");
    assert("start"@[0] != "reset"@[0]);
    assert("help"@.len() != "reset"@.len());
    if text == "/start"@ {
        assert(text.skip(1) =~= "start"@);
        assert("start"@ + "_message"@ =~= "start_message"@);
    } else {
        assert(text.skip(1) =~= "help"@);
        assert("help"@ + "_message"@ =~= "help_message"@);
    }
}

/// The action of the callback entry named `a` followed by `_callback` is `a`
/// itself, with nothing else taken out of the name: `reset` resets the chat,
/// and any other action sends the message named `a` followed by `_message`
/// when that message is not empty, and nothing otherwise.
pub proof fn lemma_callback_action_is_key_name(locale: &Locale, a: Seq<char>)
    requires
        !occurs_in(a, "_callback"@),
    ensures
        callback_decision(locale, a + "_callback"@) == if a == "reset"@ {
            CallbackAction::Reset { text: message_text(locale, "reset_message"@) }
        } else if locale.messages@.contains_key(a + "_message"@) && locale.messages@[a
            + "_message"@].len() > 0 {
            CallbackAction::Reply { text: locale.messages@[a + "_message"@] }
        } else {
            CallbackAction::NoMessage
        },
{
    reveal_strlit("_callback");
    reveal_strlit("");
    assert forall|j: int| 0 < j < "_callback"@.len() implies #[trigger] "_callback"@[j]
        != "_callback"@[0] by {}
    lemma_replace_suffix(a, "_callback"@, ""@);
    assert(a + ""@ =~= a);
}

/// A pressed button whose data only the callback entry named `a` followed by
/// `_callback` holds is answered as that entry's action `a` says: `r` stands
/// for what `decide_callback` returns for that data.
pub proof fn lemma_pressed_button_answer(
    locale: &Locale,
    data: Seq<char>,
    a: Seq<char>,
    r: CallbackAction<Seq<char>>,
)
    requires
        !occurs_in(a, "_callback"@),
        locale.callbacks@.contains_key(a + "_callback"@),
        locale.callbacks@[a + "_callback"@] == data,
        forall|k: Seq<char>|
            #[trigger] locale.callbacks@.contains_key(k) && locale.callbacks@[k] == data ==> k == a
                + "_callback"@,
        r is Unknown <==> forall|k: Seq<char>|
            #[trigger] locale.callbacks@.contains_key(k) ==> locale.callbacks@[k] != data,
        !(r is Unknown) ==> exists|k: Seq<char>|
            #[trigger] locale.callbacks@.contains_key(k) && locale.callbacks@[k] == data && r
                == callback_decision(locale, k),
    ensures
        r == if a == "reset"@ {
            CallbackAction::Reset { text: message_text(locale, "reset_message"@) }
        } else if locale.messages@.contains_key(a + "_message"@) && locale.messages@[a
            + "_message"@].len() > 0 {
            CallbackAction::Reply { text: locale.messages@[a + "_message"@] }
        } else {
            CallbackAction::NoMessage
        },
{
    assert(locale.callbacks@.contains_key(a + "_callback"@));
    lemma_callback_action_is_key_name(locale, a);
}

/// Any text that is not a command is put to the AI unchanged under the
/// assistant's system prompt, or under an empty one when none is defined.
pub proof fn lemma_plain_text_uses_assistant_prompt(
    prompts: &Prompts,
    locale: &Locale,
    text: Seq<char>,
)
    requires
        text.len() == 0 || text[0] != '/',
    ensures
        message_decision(prompts, locale, text) == (MessageAction::AskAi {
            system_prompt: if prompts@.contains_key("assistant_system_prompt"@) {
                prompts@["assistant_system_prompt"@]
            } else {
                Seq::empty()
            },
            input: text,
        }),
{
}

/// A command other than `reset`, `start` and `help` first sends the message
/// named after it (the command's name followed by `_message`) when that
/// message is not empty, and sends nothing first otherwise.
pub proof fn lemma_command_sends_its_message(prompts: &Prompts, locale: &Locale, text: Seq<char>)
    requires
        text.len() > 0,
        text[0] == '/',
        text.skip(1) != "reset"@,
        text.skip(1) != "start"@,
        text.skip(1) != "help"@,
    ensures
        message_decision(prompts, locale, text) matches MessageAction::Command { reply, .. } && reply
            == if locale.messages@.contains_key(text.skip(1) + "_message"@) && locale.messages@[text.skip(
            1,
        ) + "_message"@].len() > 0 {
            Some(locale.messages@[text.skip(1) + "_message"@])
        } else {
            None
        },
{
}

} // verus!
