use customai::client::openai::{reply_text, ChatHistory, ChatMessage, Role};
use customai::config::{Locale};
use customai::keyboard::{build_keyboard, KeyboardButton};
use customai::string_map::StringMap;
use customai::tracker::MessageTracker;

fn map(pairs: &[(&str, &str)]) -> StringMap {
    let mut m = StringMap::new();
    for (k, v) in pairs {
        m.insert(k.to_string(), v.to_string());
    }
    m
}

fn view(rows: &Vec<Vec<KeyboardButton>>) -> Vec<Vec<(String, String)>> {
    rows.iter()
        .map(|r| r.iter().map(|b| (b.text.clone(), b.callback_data.clone())).collect())
        .collect()
}

fn pair(a: &str, b: &str) -> (String, String) {
    (a.to_string(), b.to_string())
}

#[test]
fn keyboard_sorted_in_rows_of_two() {
    let l = Locale {
        messages: StringMap::new(),
        buttons: map(&[("help_button", "Help"), ("about_button", "About"), ("settings_button", "Settings"), ("empty_button", ""), ("lonely_button", "Lonely")]),
        callbacks: map(&[("help_callback", "help"), ("about_callback", "about"), ("settings_callback", "settings"), ("empty_callback", "empty")]),
    };
    let rows = build_keyboard(&l);
    assert_eq!(
        view(&rows),
        vec![vec![pair("About", "about"), pair("Help", "help")], vec![pair("Settings", "settings")]]
    );
}

#[test]
fn keyboard_skips_empty_callback_data() {
    let l = Locale {
        messages: StringMap::new(),
        buttons: map(&[("a_button", "Zed"), ("b_button", "Alpha")]),
        callbacks: map(&[("a_callback", "z"), ("b_callback", "")]),
    };
    assert_eq!(view(&build_keyboard(&l)), vec![vec![pair("Zed", "z")]]);
}

#[test]
fn keyboard_orders_like_string_ord() {
    let labels = ["b", "B", "ab", "a", "é", "Z", "aa"];
    let mut buttons = Vec::new();
    let mut callbacks = Vec::new();
    for (i, l) in labels.iter().enumerate() {
        buttons.push((format!("k{}_button", i), l.to_string()));
        callbacks.push((format!("k{}_callback", i), format!("d{}", i)));
    }
    let b: Vec<(&str, &str)> = buttons.iter().map(|(k, v)| (k.as_str(), v.as_str())).collect();
    let c: Vec<(&str, &str)> = callbacks.iter().map(|(k, v)| (k.as_str(), v.as_str())).collect();
    let l = Locale { messages: StringMap::new(), buttons: map(&b), callbacks: map(&c) };
    let rows = build_keyboard(&l);
    let texts: Vec<String> = rows.iter().flat_map(|r| r.iter().map(|b| b.text.clone())).collect();
    let mut expected: Vec<String> = labels.iter().map(|s| s.to_string()).collect();
    expected.sort();
    assert_eq!(texts, expected);
    assert!(rows.iter().all(|r| r.len() == 2 || r.len() == 1));
    assert_eq!(rows.len(), 4);
}

#[test]
fn keyboard_empty_without_buttons() {
    let l = Locale { messages: StringMap::new(), buttons: StringMap::new(), callbacks: StringMap::new() };
    assert!(build_keyboard(&l).is_empty());
}

#[test]
fn tracker_returns_tracked_ids_in_order() {
    let mut t = MessageTracker::new();
    t.track(7, 100);
    t.track(8, 5);
    t.track(7, 101);
    assert_eq!(t.take_messages(7), vec![100, 101]);
    assert_eq!(t.take_messages(7), Vec::<i32>::new());
    assert_eq!(t.take_messages(8), vec![5]);
}

#[test]
fn tracker_starts_over_after_take() {
    let mut t = MessageTracker::new();
    t.track(1, 1);
    let _ = t.take_messages(1);
    t.track(1, 2);
    assert_eq!(t.take_messages(1), vec![2]);
}

fn describe(v: &Vec<ChatMessage>) -> Vec<(Role, String)> {
    v.iter().map(|m| (m.role, m.content.clone())).collect()
}

#[test]
fn history_turns_append_user_and_reply() {
    let mut h = ChatHistory::new();
    let r1 = h.begin_turn(42, "sys", "hello");
    assert_eq!(describe(&r1), vec![(Role::System, "sys".to_string()), (Role::User, "hello".to_string())]);
    h.finish_turn(42, "hi there");
    let r2 = h.begin_turn(42, "sys2", "again");
    assert_eq!(
        describe(&r2),
        vec![
            (Role::System, "sys2".to_string()),
            (Role::User, "hello".to_string()),
            (Role::Assistant, "hi there".to_string()),
            (Role::User, "again".to_string()),
        ]
    );
}

#[test]
fn history_is_per_chat_and_clearable() {
    let mut h = ChatHistory::new();
    let _ = h.begin_turn(1, "s", "one");
    h.finish_turn(1, "reply one");
    let r = h.begin_turn(2, "s", "two");
    assert_eq!(describe(&r), vec![(Role::System, "s".to_string()), (Role::User, "two".to_string())]);
    h.clear_history(1);
    let r = h.begin_turn(1, "s", "fresh");
    assert_eq!(describe(&r), vec![(Role::System, "s".to_string()), (Role::User, "fresh".to_string())]);
}

#[test]
fn failed_turn_keeps_user_message() {
    let mut h = ChatHistory::new();
    let _ = h.begin_turn(3, "s", "lost");
    let r = h.begin_turn(3, "s", "retry");
    assert_eq!(
        describe(&r),
        vec![(Role::System, "s".to_string()), (Role::User, "lost".to_string()), (Role::User, "retry".to_string())]
    );
}

#[test]
fn reply_text_takes_first_choice() {
    assert_eq!(reply_text(&vec![Some("first".to_string()), Some("second".to_string())]), "first");
    assert_eq!(reply_text(&vec![None, Some("second".to_string())]), "AI returned empty response");
    assert_eq!(reply_text(&vec![]), "AI returned empty response");
}

#[test]
fn keyboard_independent_of_entry_order() {
    let a = Locale {
        messages: StringMap::new(),
        buttons: map(&[("x_button", "Xylo"), ("y_button", "Yak"), ("z_button", "Zebra")]),
        callbacks: map(&[("x_callback", "x"), ("y_callback", "y"), ("z_callback", "z")]),
    };
    let b = Locale {
        messages: StringMap::new(),
        buttons: map(&[("z_button", "Zebra"), ("x_button", "Xylo"), ("y_button", "Yak")]),
        callbacks: map(&[("z_callback", "z"), ("y_callback", "y"), ("x_callback", "x")]),
    };
    assert_eq!(view(&build_keyboard(&a)), view(&build_keyboard(&b)));
}
