use customai::config::{
    load_json, load_locale, try_load_json, load_prompts, max_tokens_setting, model_name_setting, parse_u32, try_load_locale,
    try_load_prompts,
};
use customai::bot::msg;
use customai::string_map::StringMap;

fn get(m: &StringMap, k: &str) -> Option<String> {
    m.get(&k.to_string()).cloned()
}

#[test]
fn load_json_reads_string_objects() {
    let m = load_json(r#"{"a": "x", "b": "y"}"#);
    assert_eq!(m.len(), 2);
    assert_eq!(get(&m, "a"), Some("x".to_string()));
    assert_eq!(get(&m, "b"), Some("y".to_string()));
    assert_eq!(get(&m, "c"), None);
}

#[test]
fn load_json_last_duplicate_wins() {
    let m = load_json(r#"{"a": "x", "a": "z"}"#);
    assert_eq!(m.len(), 1);
    assert_eq!(get(&m, "a"), Some("z".to_string()));
}

#[test]
fn load_json_rejects_other_texts() {
    assert!(try_load_json("not json").is_none());
    assert!(try_load_json(r#"{"a": 1}"#).is_none());
    assert!(try_load_json(r#"["a"]"#).is_none());
    assert_eq!(try_load_json(r#"{"a": "x"}"#).map(|m| m.len()), Some(1));
}

#[test]
fn load_prompts_reads_prompts() {
    let p = load_prompts(r#"{"assistant_system_prompt": "Be brief."}"#);
    assert_eq!(get(&p, "assistant_system_prompt"), Some("Be brief.".to_string()));
}

#[test]
fn load_locale_reads_three_tables() {
    let l = load_locale(r#"{"welcome_message": "Hi"}"#, r#"{"help_button": "Help"}"#, r#"{"help_callback": "help"}"#);
    assert_eq!(msg(&l, "welcome_message"), "Hi");
    assert_eq!(get(&l.buttons, "help_button"), Some("Help".to_string()));
    assert_eq!(get(&l.callbacks, "help_callback"), Some("help".to_string()));
}

#[test]
fn try_loads_report_bad_json() {
    assert!(try_load_prompts("{").is_none());
    assert!(try_load_prompts("{}").is_some());
    assert!(try_load_locale("{}", "{}", "[]").is_none());
    assert!(try_load_locale("{}", "{}", "{}").is_some());
}

#[test]
fn parse_u32_matches_std() {
    let cases = ["500", "+7", "0", "4294967295", "4294967296", "", "+", "-1", "12a", " 1", "007", "99999999999999999999"];
    for c in cases {
        assert_eq!(parse_u32(c), c.parse::<u32>().ok(), "case {:?}", c);
    }
}

#[test]
fn max_tokens_defaults_to_500() {
    assert_eq!(max_tokens_setting(None), 500);
    assert_eq!(max_tokens_setting(Some("abc")), 500);
    assert_eq!(max_tokens_setting(Some("1024")), 1024);
}

#[test]
fn model_name_defaults() {
    assert_eq!(model_name_setting(None), "gpt-4o-mini");
    assert_eq!(model_name_setting(Some("gpt-4o".to_string())), "gpt-4o");
}

#[test]
fn string_map_insert_replaces() {
    let mut m = StringMap::new();
    m.insert("k".to_string(), "1".to_string());
    m.insert("k".to_string(), "2".to_string());
    assert_eq!(m.len(), 1);
    assert_eq!(get(&m, "k"), Some("2".to_string()));
    assert_eq!(m.key_of_value(&"2".to_string()), Some(&"k".to_string()));
    assert_eq!(m.key_of_value(&"1".to_string()), None);
}

#[test]
fn from_distinct_keeps_entries() {
    let m = StringMap::from_distinct(vec![("a".to_string(), "1".to_string()), ("b".to_string(), "2".to_string())]);
    assert_eq!(m.len(), 2);
    assert_eq!(get(&m, "a"), Some("1".to_string()));
    assert_eq!(get(&m, "b"), Some("2".to_string()));
    assert_eq!(m.entry(1), &("b".to_string(), "2".to_string()));
}
