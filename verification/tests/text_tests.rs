use customai::html::{convert_bold_exec, sanitize_html};
use customai::text::{from_chars, replace_all_exec, replace_first_exec, to_chars, trim_exec, occurs_in_exec};

fn chars(s: &str) -> Vec<char> {
    s.chars().collect()
}

fn s(v: &Vec<char>) -> String {
    v.iter().collect()
}

#[test]
fn replace_all_matches_std() {
    let cases = [("a<ul>b<ul>c", "<ul>", "X"), ("aaaa", "aa", "b"), ("aaa", "aa", "b"), ("", "x", "y"), ("abc", "abcd", "z"), ("xyx", "x", "")];
    for (text, pat, rep) in cases {
        let got = replace_all_exec(&chars(text), &chars(pat), &chars(rep));
        assert_eq!(s(&got), text.replace(pat, rep));
    }
}

#[test]
fn replace_first_matches_std() {
    let cases = [("a**b**c", "**", "<b>"), ("***", "**", "<b>"), ("none", "**", "<b>"), ("**", "**", "")];
    for (text, pat, rep) in cases {
        let got = replace_first_exec(&chars(text), &chars(pat), &chars(rep));
        assert_eq!(s(&got), text.replacen(pat, rep, 1));
    }
}

#[test]
fn trim_matches_std() {
    let cases = ["  a b  ", "\n\t x\u{3000}", "", "   ", "\u{85}y\u{a0}", "z"];
    for text in cases {
        assert_eq!(s(&trim_exec(&chars(text))), text.trim());
    }
}

#[test]
fn chars_round_trip() {
    let text = "héllo • wörld";
    assert_eq!(to_chars(text), chars(text));
    assert_eq!(from_chars(&chars(text)), text.to_string());
}

#[test]
fn occurs_in_finds_patterns() {
    assert!(occurs_in_exec(&chars("ab**c"), &chars("**")));
    assert!(!occurs_in_exec(&chars("a*b*c"), &chars("**")));
    assert!(occurs_in_exec(&chars("ab"), &chars("")));
}

#[test]
fn sanitize_bold_pairs() {
    assert_eq!(sanitize_html("**hi** there **you**"), "<b>hi</b> there <b>you</b>");
}

#[test]
fn sanitize_unpaired_bold_opens_only() {
    assert_eq!(sanitize_html("a **b"), "a <b>b");
    assert_eq!(sanitize_html("***"), "<b>*");
}

#[test]
fn sanitize_lists_and_headings_trimmed() {
    // the trailing line breaks are trimmed away
    let got = sanitize_html("<h1>Title</h1><ul><li>one</li><li>two</li></ul>");
    assert_eq!(got, "<b>Title</b>\n• one\n• two");
}

#[test]
fn sanitize_paragraphs_and_breaks() {
    assert_eq!(sanitize_html("<p>a</p><p>b</p><br>c<br/>d"), "a\nb\n\nc\nd");
}

#[test]
fn sanitize_emphasis_and_containers() {
    assert_eq!(sanitize_html("<div><strong>x</strong> <em>y</em><span>z</span></div>"), "<b>x</b> <i>y</i>z");
}

#[test]
fn sanitize_three_newlines_become_two() {
    assert_eq!(sanitize_html("a\n\n\nb"), "a\n\nb");
    assert_eq!(sanitize_html("a\n\n\n\nb"), "a\n\n\nb");
}

#[test]
fn sanitize_trims() {
    assert_eq!(sanitize_html("  \n hello \t\n"), "hello");
}

#[test]
fn sanitize_plain_text_unchanged() {
    let text = "just a plain reply, nothing * special";
    assert_eq!(sanitize_html(text), text);
}

#[test]
fn sanitize_is_what_the_pipeline_gives() {
    let input = "  **Hi**\n\n\n<h2>Sub</h2><ol><li>a</li></ol><em>e</em>  ";
    let mut s = input.to_string();
    while s.contains("**") {
        s = s.replacen("**", "<b>", 1).replacen("**", "</b>", 1);
    }
    let expected = s
        .replace("<ul>", "").replace("</ul>", "\n").replace("<ol>", "").replace("</ol>", "\n")
        .replace("<li>", "• ").replace("</li>", "\n")
        .replace("<h1>", "<b>").replace("</h1>", "</b>\n")
        .replace("<h2>", "<b>").replace("</h2>", "</b>\n")
        .replace("<h3>", "<b>").replace("</h3>", "</b>\n")
        .replace("<p>", "").replace("</p>", "\n")
        .replace("<br>", "\n").replace("<br/>", "\n")
        .replace("<strong>", "<b>").replace("</strong>", "</b>")
        .replace("<em>", "<i>").replace("</em>", "</i>")
        .replace("<div>", "").replace("</div>", "\n")
        .replace("<span>", "").replace("</span>", "")
        .replace("\n\n\n", "\n\n")
        .trim()
        .to_string();
    assert_eq!(sanitize_html(input), expected);
}

#[test]
fn bold_rounds_consume_stars_in_pairs() {
    assert_eq!(s(&convert_bold_exec(&chars("****"))), "<b></b>");
    assert_eq!(s(&convert_bold_exec(&chars("*****"))), "<b></b>*");
    assert_eq!(s(&convert_bold_exec(&chars("**a** **b** **c"))), "<b>a</b> <b>b</b> <b>c");
}
