//! The bot's configuration: the prompt and locale tables read from JSON, and
//! the settings read from the environment.
use vstd::prelude::*;
use crate::string_map::{entries_map, keys_distinct, pairs_view, StringMap};
use vstd::string::StringExecFns;

verus! {

/// System prompts by name.
pub type Prompts = StringMap;

/// Message texts by name.
pub type Messages = StringMap;

/// Button labels by name.
pub type Buttons = StringMap;

/// Callback data by name.
pub type Callbacks = StringMap;

/// The texts of the bot's user interface.
pub struct Locale {
    pub messages: Messages,
    pub buttons: Buttons,
    pub callbacks: Callbacks,
}

/// `serde_json::Error`, the error of a failed parse, carried through opaque.
#[verifier::external_type_specification]
#[verifier::external_body]
pub struct ExJsonError(serde_json::Error);

/// The map that a JSON text denotes when it is an object whose values are all
/// strings (a key given twice keeps its last value); `None` for any other text.
pub uninterp spec fn json_string_map(text: Seq<char>) -> Option<Map<Seq<char>, Seq<char>>>;

/// Reads `text` as a JSON object of strings.
///
/// Trusted: calls `serde_json::from_str` to deserialize a
/// `BTreeMap<String, String>` and lists that map's entries. The contract claims
/// that the call succeeds exactly when `json_string_map` holds a map, that the
/// entries then make up that map, and that no key is listed twice (a
/// `BTreeMap` holds each key once).
#[verifier::external_body]
fn parse_string_object(text: &str) -> (res: Result<Vec<(String, String)>, serde_json::Error>)
    ensures
        res is Ok <==> json_string_map(text@) is Some,
        res matches Ok(v) ==> keys_distinct(pairs_view(v@)),
        res matches Ok(v) ==> json_string_map(text@) == Some(entries_map(pairs_view(v@))),
{
    match serde_json::from_str::<std::collections::BTreeMap<String, String>>(text) {
        Ok(m) => Ok(m.into_iter().collect()),
        Err(e) => Err(e),
    }
}

/// The string table that a JSON text holds; `None` when the text is not a
/// JSON object of strings.
pub fn try_load_json(text: &str) -> (res: Option<StringMap>)
    ensures
        match res {
            Some(m) => json_string_map(text@) == Some(m@),
            None => json_string_map(text@) is None,
        },
{
    match parse_string_object(text) {
        Ok(entries) => Some(StringMap::from_distinct(entries)),
        Err(_) => None,
    }
}

/// The string table that a JSON object of strings holds.
pub fn load_json(text: &str) -> (res: StringMap)
    requires
        json_string_map(text@) is Some,
    ensures
        json_string_map(text@) == Some(res@),
{
    match try_load_json(text) {
        Some(m) => m,
        None => StringMap::new(),
    }
}

/// The prompt table held by the JSON text of the prompts file.
pub fn load_prompts(text: &str) -> (res: Prompts)
    requires
        json_string_map(text@) is Some,
    ensures
        json_string_map(text@) == Some(res@),
{
    load_json(text)
}

/// The locale held by the JSON texts of the messages, buttons and callbacks
/// files.
pub fn load_locale(messages_json: &str, buttons_json: &str, callbacks_json: &str) -> (res: Locale)
    requires
        json_string_map(messages_json@) is Some,
        json_string_map(buttons_json@) is Some,
        json_string_map(callbacks_json@) is Some,
    ensures
        json_string_map(messages_json@) == Some(res.messages@),
        json_string_map(buttons_json@) == Some(res.buttons@),
        json_string_map(callbacks_json@) == Some(res.callbacks@),
{
    Locale {
        messages: load_prompts(messages_json),
        buttons: load_prompts(buttons_json),
        callbacks: load_prompts(callbacks_json),
    }
}

/// The prompt table, or `None` when the text is not a JSON object of strings.
pub fn try_load_prompts(text: &str) -> (res: Option<Prompts>)
    ensures
        match res {
            Some(p) => json_string_map(text@) == Some(p@),
            None => json_string_map(text@) is None,
        },
{
    if try_load_json(text).is_some() {
        Some(load_prompts(text))
    } else {
        None
    }
}

/// The locale, or `None` when one of the texts is not a JSON object of
/// strings.
pub fn try_load_locale(messages_json: &str, buttons_json: &str, callbacks_json: &str) -> (res:
    Option<Locale>)
    ensures
        match res {
            Some(l) => {
                &&& json_string_map(messages_json@) == Some(l.messages@)
                &&& json_string_map(buttons_json@) == Some(l.buttons@)
                &&& json_string_map(callbacks_json@) == Some(l.callbacks@)
            },
            None => {
                ||| json_string_map(messages_json@) is None
                ||| json_string_map(buttons_json@) is None
                ||| json_string_map(callbacks_json@) is None
            },
        },
{
    if try_load_json(messages_json).is_some() && try_load_json(buttons_json).is_some()
        && try_load_json(callbacks_json).is_some() {
        Some(load_locale(messages_json, buttons_json, callbacks_json))
    } else {
        None
    }
}

/// The value of the decimal digits `d`.
pub open spec fn digits_value(d: Seq<char>) -> nat
    decreases d.len(),
{
    if d.len() == 0 {
        0
    } else {
        digits_value(d.drop_last()) * 10 + (d.last() as nat - '0' as nat) as nat
    }
}

/// Every character is an ASCII digit.
pub open spec fn all_digits(d: Seq<char>) -> bool {
    forall|i: int| 0 <= i < d.len() ==> '0' <= #[trigger] d[i] <= '9'
}

/// The number that `u32::from_str` reads from `s`: an optional `+` followed by
/// at least one decimal digit, whose value fits in a `u32`.
pub open spec fn parsed_u32(s: Seq<char>) -> Option<u32> {
    let d = if s.len() > 0 && s[0] == '+' { s.skip(1) } else { s };
    if d.len() > 0 && all_digits(d) && digits_value(d) <= u32::MAX {
        Some(digits_value(d) as u32)
    } else {
        None
    }
}

proof fn lemma_digits_value_prefix_le(d: Seq<char>, k: int)
    requires
        all_digits(d),
        0 <= k <= d.len(),
    ensures
        digits_value(d.take(k)) <= digits_value(d),
    decreases d.len() - k,
{
    if k < d.len() {
        lemma_digits_value_prefix_le(d, k + 1);
        assert(d.take(k + 1).drop_last() =~= d.take(k));
        assert('0' <= d[k] <= '9');
    } else {
        assert(d.take(k) =~= d);
    }
}

/// Reads a `u32` as `u32::from_str` does.
pub fn parse_u32(s: &str) -> (res: Option<u32>)
    ensures
        res == parsed_u32(s@),
{
    let cs = crate::text::to_chars(s);
    let n = cs.len();
    let start: usize = if n > 0 && cs[0] == '+' { 1 } else { 0 };
    let ghost d = if s@.len() > 0 && s@[0] == '+' { s@.skip(1) } else { s@ };
    assert(d =~= cs@.skip(start as int));
    if start >= n {
        return None;
    }
    let mut value: u32 = 0;
    let mut i: usize = start;
    while i < n
        invariant
            n == cs.len(),
            start <= i <= n,
            d == cs@.skip(start as int),
            cs@ == s@,
            d == (if s@.len() > 0 && s@[0] == '+' { s@.skip(1) } else { s@ }),
            d.len() > 0,
            all_digits(cs@.subrange(start as int, i as int)),
            value as nat == digits_value(cs@.subrange(start as int, i as int)),
        decreases n - i,
    {
        let c = cs[i];
        let ghost prefix = cs@.subrange(start as int, i + 1);
        assert(prefix.drop_last() =~= cs@.subrange(start as int, i as int));
        assert(prefix.last() == c);
        if !('0' <= c && c <= '9') {
            assert(!all_digits(d)) by {
                assert(d[i - start] == c);
            }
            return None;
        }
        let digit: u32 = (c as u32) - ('0' as u32);
        if value > (u32::MAX - digit) / 10 {
            proof {
                assert(prefix =~= d.take(i + 1 - start));
                assert(value * 10 + digit > u32::MAX) by (nonlinear_arith)
                    requires
                        value > (u32::MAX - digit) / 10,
                        digit <= 9,
                ;
                if all_digits(d) {
                    lemma_digits_value_prefix_le(d, i + 1 - start);
                }
            }
            return None;
        }
        value = value * 10 + digit;
        i = i + 1;
    }
    assert(cs@.subrange(start as int, n as int) =~= d);
    Some(value)
}

/// The `MAX_TOKENS` setting: the number that the variable's value holds, and
/// 500 when the variable is unset or holds no `u32`.
pub fn max_tokens_setting(raw: Option<&str>) -> (res: u32)
    ensures
        res == match raw {
            Some(s) => match parsed_u32(s@) {
                Some(v) => v,
                None => 500,
            },
            None => 500,
        },
{
    match raw {
        Some(s) => match parse_u32(s) {
            Some(v) => v,
            None => 500,
        },
        None => 500,
    }
}

/// The `MODEL_NAME` setting: the variable's value, and `gpt-4o-mini` when it
/// is unset.
pub fn model_name_setting(raw: Option<String>) -> (res: String)
    ensures
        res@ == match raw {
            Some(s) => s@,
            None => "gpt-4o-mini"@,
        },
{
    match raw {
        Some(s) => s,
        None => String::from_str("gpt-4o-mini"),
    }
}

} // verus!

verus! {

/// A single decimal digit reads as its value.
pub proof fn lemma_parse_single_digit(c: char)
    requires
        '0' <= c <= '9',
    ensures
        parsed_u32(seq![c]) == Some((c as int - '0' as int) as u32),
{
    let d = seq![c];
    assert(d.drop_last() =~= Seq::<char>::empty());
    assert(digits_value(Seq::<char>::empty()) == 0);
    assert(d.last() == c);
    assert(digits_value(d) == digits_value(d.drop_last()) * 10 + (c as nat - '0' as nat) as nat);
    assert(d[0] == c);
}

/// Appending a decimal digit to a number read from `s` multiplies it by ten
/// and adds the digit, as long as the result fits in a `u32`.
pub proof fn lemma_parse_append_digit(s: Seq<char>, c: char, v: u32)
    requires
        parsed_u32(s) == Some(v),
        '0' <= c <= '9',
        v * 10 + (c as int - '0' as int) <= u32::MAX,
    ensures
        parsed_u32(s + seq![c]) == Some((v * 10 + (c as int - '0' as int)) as u32),
{
    let d = if s.len() > 0 && s[0] == '+' { s.skip(1) } else { s };
    let t = s + seq![c];
    assert(t[0] == s[0]);
    let e = if t.len() > 0 && t[0] == '+' { t.skip(1) } else { t };
    assert(e =~= d + seq![c]);
    assert(e.drop_last() =~= d);
    assert(e.last() == c);
    assert forall|i: int| 0 <= i < e.len() implies '0' <= #[trigger] e[i] <= '9' by {
        if i < d.len() {
            assert(e[i] == d[i]);
        }
    }
}

/// A `+` in front of a number changes nothing it reads as.
pub proof fn lemma_parse_plus_sign(s: Seq<char>)
    requires
        s.len() == 0 || s[0] != '+',
    ensures
        parsed_u32(seq!['+'] + s) == parsed_u32(s),
{
    assert((seq!['+'] + s).skip(1) =~= s);
}

} // verus!
