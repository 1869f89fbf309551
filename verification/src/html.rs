//! Turning an AI reply into the HTML subset that Telegram accepts.
use vstd::prelude::*;
use crate::text::{
    from_chars, is_trimmed, lemma_replace_absent, lemma_trim_is_trimmed, occurs_in, occurs_in_exec,
    matches_at, replace_all, replace_all_exec, replace_first, replace_first_exec, to_chars, trim,
    trim_end, trim_exec, trim_start,
};

verus! {

/// The number of times `c` occurs in `s`.
pub open spec fn count_char(s: Seq<char>, c: char) -> nat
    decreases s.len(),
{
    if s.len() == 0 {
        0
    } else {
        (if s[0] == c { 1nat } else { 0nat }) + count_char(s.skip(1), c)
    }
}

proof fn lemma_count_concat(a: Seq<char>, b: Seq<char>, c: char)
    ensures
        count_char(a + b, c) == count_char(a, c) + count_char(b, c),
    decreases a.len(),
{
    if a.len() > 0 {
        assert((a + b).skip(1) =~= a.skip(1) + b);
        lemma_count_concat(a.skip(1), b, c);
    } else {
        assert(a + b =~= b);
    }
}

/// The leftmost occurrence is where `replace_first` puts `rep`.
proof fn lemma_replace_first_split(s: Seq<char>, pat: Seq<char>, rep: Seq<char>) -> (i: int)
    requires
        pat.len() > 0,
        occurs_in(s, pat),
    ensures
        matches_at(s, pat, i),
        s == s.take(i) + pat + s.skip(i + pat.len()),
        replace_first(s, pat, rep) == s.take(i) + rep + s.skip(i + pat.len()),
    decreases s.len(),
{
    let k = choose|k: int| matches_at(s, pat, k);
    if s.take(pat.len() as int) == pat {
        assert(s =~= s.take(0) + pat + s.skip(pat.len() as int));
        assert(replace_first(s, pat, rep) =~= s.take(0) + rep + s.skip(pat.len() as int));
        0
    } else {
        assert(k != 0) by {
            if k == 0 {
                assert(s.subrange(0, pat.len() as int) =~= s.take(pat.len() as int));
            }
        }
        let t = s.skip(1);
        assert(t.subrange(k - 1, k - 1 + pat.len()) =~= s.subrange(k, k + pat.len()));
        assert(matches_at(t, pat, k - 1));
        let j = lemma_replace_first_split(t, pat, rep);
        assert(s.take(j + 1) =~= seq![s[0]] + t.take(j));
        assert(t.skip(j + pat.len()) =~= s.skip(j + 1 + pat.len()));
        assert(s =~= s.take(j + 1) + pat + s.skip(j + 1 + pat.len()));
        assert(replace_first(s, pat, rep) =~= s.take(j + 1) + rep + s.skip(j + 1 + pat.len()));
        assert(s.subrange(j + 1, j + 1 + pat.len()) =~= t.subrange(j, j + pat.len()));
        j + 1
    }
}

/// `**`, the Markdown marker of bold text.
pub open spec fn double_star() -> Seq<char> {
    seq!['*', '*']
}

/// `<b>`, which opens bold text in HTML.
pub open spec fn bold_open() -> Seq<char> {
    seq!['<', 'b', '>']
}

/// `</b>`, which closes bold text in HTML.
pub open spec fn bold_close() -> Seq<char> {
    seq!['<', '/', 'b', '>']
}

/// One round of the bold conversion: the first `**` becomes `<b>`, the next
/// one (if any) becomes `</b>`.
pub open spec fn bold_round(s: Seq<char>) -> Seq<char> {
    replace_first(replace_first(s, double_star(), bold_open()), double_star(), bold_close())
}

/// Replacing one `**` by a star-free text removes two stars; with no `**` it
/// removes none.
proof fn lemma_replace_star_pair(s: Seq<char>, rep: Seq<char>)
    requires
        count_char(rep, '*') == 0,
    ensures
        occurs_in(s, double_star()) ==> count_char(replace_first(s, double_star(), rep), '*') + 2
            == count_char(s, '*'),
        !occurs_in(s, double_star()) ==> replace_first(s, double_star(), rep) == s,
{
    if occurs_in(s, double_star()) {
        let i = lemma_replace_first_split(s, double_star(), rep);
        let a = s.take(i);
        let b = s.skip(i + 2);
        lemma_count_concat(a + double_star(), b, '*');
        lemma_count_concat(a, double_star(), '*');
        lemma_count_concat(a + rep, b, '*');
        lemma_count_concat(a, rep, '*');
        reveal_with_fuel(count_char, 3);
    } else {
        lemma_replace_absent(s, double_star(), rep);
    }
}

/// A round removes at least two stars from a text that holds `**`.
pub proof fn lemma_bold_round_decreases(s: Seq<char>)
    requires
        occurs_in(s, double_star()),
    ensures
        count_char(bold_round(s), '*') + 2 <= count_char(s, '*'),
{
    reveal_with_fuel(count_char, 5);
    lemma_replace_star_pair(s, bold_open());
    let t = replace_first(s, double_star(), bold_open());
    lemma_replace_star_pair(t, bold_close());
}

#[via_fn]
proof fn convert_bold_decreases(s: Seq<char>) {
    if occurs_in(s, double_star()) {
        lemma_bold_round_decreases(s);
    }
}

/// Rounds of `bold_round` until no `**` is left: pairs of `**` become
/// `<b>`..`</b>`, and a last unpaired `**` becomes `<b>`.
pub open spec fn convert_bold(s: Seq<char>) -> Seq<char>
    decreases count_char(s, '*'),
    via convert_bold_decreases
{
    if occurs_in(s, double_star()) {
        convert_bold(bold_round(s))
    } else {
        s
    }
}

/// The number of rounds of `bold_round` that `convert_bold` runs.
pub open spec fn bold_round_count(s: Seq<char>) -> nat
    decreases count_char(s, '*'),
    via bold_round_count_decreases
{
    if occurs_in(s, double_star()) {
        1 + bold_round_count(bold_round(s))
    } else {
        0
    }
}

#[via_fn]
proof fn bold_round_count_decreases(s: Seq<char>) {
    if occurs_in(s, double_star()) {
        lemma_bold_round_decreases(s);
    }
}

/// The bold conversion runs at most half as many rounds as the text has
/// stars, since each round removes at least two of them.
pub proof fn lemma_bold_rounds_bounded(s: Seq<char>)
    ensures
        2 * bold_round_count(s) <= count_char(s, '*'),
    decreases count_char(s, '*'),
{
    if occurs_in(s, double_star()) {
        lemma_bold_round_decreases(s);
        lemma_bold_rounds_bounded(bold_round(s));
    }
}

/// The text with its Markdown bold markers turned into HTML, each tag that
/// Telegram does not accept replaced, runs of three line breaks shortened to
/// two, and surrounding white space removed.
pub open spec fn sanitized(text: Seq<char>) -> Seq<char> {
    let s = convert_bold(text);
    let s = replace_all(s, "<ul>"@, ""@);
    let s = replace_all(s, "</ul>"@, "\n"@);
    let s = replace_all(s, "<ol>"@, ""@);
    let s = replace_all(s, "</ol>"@, "\n"@);
    let s = replace_all(s, "<li>"@, "• "@);
    let s = replace_all(s, "</li>"@, "\n"@);
    let s = replace_all(s, "<h1>"@, "<b>"@);
    let s = replace_all(s, "</h1>"@, "</b>\n"@);
    let s = replace_all(s, "<h2>"@, "<b>"@);
    let s = replace_all(s, "</h2>"@, "</b>\n"@);
    let s = replace_all(s, "<h3>"@, "<b>"@);
    let s = replace_all(s, "</h3>"@, "</b>\n"@);
    let s = replace_all(s, "<p>"@, ""@);
    let s = replace_all(s, "</p>"@, "\n"@);
    let s = replace_all(s, "<br>"@, "\n"@);
    let s = replace_all(s, "<br/>"@, "\n"@);
    let s = replace_all(s, "<strong>"@, "<b>"@);
    let s = replace_all(s, "</strong>"@, "</b>"@);
    let s = replace_all(s, "<em>"@, "<i>"@);
    let s = replace_all(s, "</em>"@, "</i>"@);
    let s = replace_all(s, "<div>"@, ""@);
    let s = replace_all(s, "</div>"@, "\n"@);
    let s = replace_all(s, "<span>"@, ""@);
    let s = replace_all(s, "</span>"@, ""@);
    let s = replace_all(s, "\n\n\n"@, "\n\n"@);
    trim(s)
}

/// The patterns that `sanitize_html` replaces are not empty.
proof fn lemma_markup_patterns_nonempty()
    ensures
        "<ul>"@.len() > 0,
        "</ul>"@.len() > 0,
        "<ol>"@.len() > 0,
        "</ol>"@.len() > 0,
        "<li>"@.len() > 0,
        "</li>"@.len() > 0,
        "<h1>"@.len() > 0,
        "</h1>"@.len() > 0,
        "<h2>"@.len() > 0,
        "</h2>"@.len() > 0,
        "<h3>"@.len() > 0,
        "</h3>"@.len() > 0,
        "<p>"@.len() > 0,
        "</p>"@.len() > 0,
        "<br>"@.len() > 0,
        "<br/>"@.len() > 0,
        "<strong>"@.len() > 0,
        "</strong>"@.len() > 0,
        "<em>"@.len() > 0,
        "</em>"@.len() > 0,
        "<div>"@.len() > 0,
        "</div>"@.len() > 0,
        "<span>"@.len() > 0,
        "</span>"@.len() > 0,
        "\n\n\n"@.len() > 0,
{
    reveal_strlit("<ul>");
    reveal_strlit("</ul>");
    reveal_strlit("<ol>");
    reveal_strlit("</ol>");
    reveal_strlit("<li>");
    reveal_strlit("</li>");
    reveal_strlit("<h1>");
    reveal_strlit("</h1>");
    reveal_strlit("<h2>");
    reveal_strlit("</h2>");
    reveal_strlit("<h3>");
    reveal_strlit("</h3>");
    reveal_strlit("<p>");
    reveal_strlit("</p>");
    reveal_strlit("<br>");
    reveal_strlit("<br/>");
    reveal_strlit("<strong>");
    reveal_strlit("</strong>");
    reveal_strlit("<em>");
    reveal_strlit("</em>");
    reveal_strlit("<div>");
    reveal_strlit("</div>");
    reveal_strlit("<span>");
    reveal_strlit("</span>");
    reveal_strlit("\n\n\n");
}

/// No `**`, no tag that `sanitize_html` replaces, no three line breaks in a
/// row, and no white space at either end.
pub open spec fn markup_free(text: Seq<char>) -> bool {
    &&& !occurs_in(text, double_star())
    &&& !occurs_in(text, "<ul>"@)
    &&& !occurs_in(text, "</ul>"@)
    &&& !occurs_in(text, "<ol>"@)
    &&& !occurs_in(text, "</ol>"@)
    &&& !occurs_in(text, "<li>"@)
    &&& !occurs_in(text, "</li>"@)
    &&& !occurs_in(text, "<h1>"@)
    &&& !occurs_in(text, "</h1>"@)
    &&& !occurs_in(text, "<h2>"@)
    &&& !occurs_in(text, "</h2>"@)
    &&& !occurs_in(text, "<h3>"@)
    &&& !occurs_in(text, "</h3>"@)
    &&& !occurs_in(text, "<p>"@)
    &&& !occurs_in(text, "</p>"@)
    &&& !occurs_in(text, "<br>"@)
    &&& !occurs_in(text, "<br/>"@)
    &&& !occurs_in(text, "<strong>"@)
    &&& !occurs_in(text, "</strong>"@)
    &&& !occurs_in(text, "<em>"@)
    &&& !occurs_in(text, "</em>"@)
    &&& !occurs_in(text, "<div>"@)
    &&& !occurs_in(text, "</div>"@)
    &&& !occurs_in(text, "<span>"@)
    &&& !occurs_in(text, "</span>"@)
    &&& !occurs_in(text, "\n\n\n"@)
    &&& is_trimmed(text)
}

/// A text with no white space at either end is its own trim.
pub proof fn lemma_trim_of_trimmed(s: Seq<char>)
    requires
        is_trimmed(s),
    ensures
        trim(s) == s,
{
    assert(trim_start(s) == s);
}

/// A text without markup and without surrounding white space is sent as it
/// is.
pub proof fn lemma_plain_text_unchanged(text: Seq<char>)
    requires
        markup_free(text),
    ensures
        sanitized(text) == text,
{
    lemma_markup_patterns_nonempty();
    lemma_replace_absent(text, "<ul>"@, ""@);
    lemma_replace_absent(text, "</ul>"@, "\n"@);
    lemma_replace_absent(text, "<ol>"@, ""@);
    lemma_replace_absent(text, "</ol>"@, "\n"@);
    lemma_replace_absent(text, "<li>"@, "• "@);
    lemma_replace_absent(text, "</li>"@, "\n"@);
    lemma_replace_absent(text, "<h1>"@, "<b>"@);
    lemma_replace_absent(text, "</h1>"@, "</b>\n"@);
    lemma_replace_absent(text, "<h2>"@, "<b>"@);
    lemma_replace_absent(text, "</h2>"@, "</b>\n"@);
    lemma_replace_absent(text, "<h3>"@, "<b>"@);
    lemma_replace_absent(text, "</h3>"@, "</b>\n"@);
    lemma_replace_absent(text, "<p>"@, ""@);
    lemma_replace_absent(text, "</p>"@, "\n"@);
    lemma_replace_absent(text, "<br>"@, "\n"@);
    lemma_replace_absent(text, "<br/>"@, "\n"@);
    lemma_replace_absent(text, "<strong>"@, "<b>"@);
    lemma_replace_absent(text, "</strong>"@, "</b>"@);
    lemma_replace_absent(text, "<em>"@, "<i>"@);
    lemma_replace_absent(text, "</em>"@, "</i>"@);
    lemma_replace_absent(text, "<div>"@, ""@);
    lemma_replace_absent(text, "</div>"@, "\n"@);
    lemma_replace_absent(text, "<span>"@, ""@);
    lemma_replace_absent(text, "</span>"@, ""@);
    lemma_replace_absent(text, "\n\n\n"@, "\n\n"@);
    lemma_trim_of_trimmed(text);
}

/// Replaces every `pat` in `s` by `rep`.
fn rewrite(s: &Vec<char>, pat: &str, rep: &str) -> (res: Vec<char>)
    requires
        pat@.len() > 0,
    ensures
        res@ == replace_all(s@, pat@, rep@),
{
    let p = to_chars(pat);
    let r = to_chars(rep);
    replace_all_exec(s, &p, &r)
}

/// Converts every `**` pair into `<b>`..`</b>`, as long as any `**` is left.
pub fn convert_bold_exec(text: &Vec<char>) -> (res: Vec<char>)
    ensures
        res@ == convert_bold(text@),
        !occurs_in(res@, double_star()),
{
    let star2: Vec<char> = vec!['*', '*'];
    let open: Vec<char> = vec!['<', 'b', '>'];
    let close: Vec<char> = vec!['<', '/', 'b', '>'];
    assert(star2@ =~= double_star());
    assert(open@ =~= bold_open());
    assert(close@ =~= bold_close());
    let mut s: Vec<char> = text.clone();
    assert(s@ =~= text@);
    while occurs_in_exec(&s, &star2)
        invariant
            star2@ == double_star(),
            open@ == bold_open(),
            close@ == bold_close(),
            convert_bold(s@) == convert_bold(text@),
        decreases count_char(s@, '*'),
    {
        proof {
            lemma_bold_round_decreases(s@);
        }
        let t = replace_first_exec(&s, &star2, &open);
        s = replace_first_exec(&t, &star2, &close);
    }
    s
}

/// Rewrites an AI reply into the HTML that Telegram accepts: Markdown bold
/// becomes `<b>`, list, heading, paragraph and container tags are replaced,
/// three line breaks in a row become two, and the result is trimmed.
pub fn sanitize_html(text: &str) -> (res: String)
    ensures
        res@ == sanitized(text@),
        is_trimmed(res@),
{
    proof {
        lemma_markup_patterns_nonempty();
    }
    let chars = to_chars(text);
    let s = convert_bold_exec(&chars);
    let s = rewrite(&s, "<ul>", "");
    let s = rewrite(&s, "</ul>", "\n");
    let s = rewrite(&s, "<ol>", "");
    let s = rewrite(&s, "</ol>", "\n");
    let s = rewrite(&s, "<li>", "• ");
    let s = rewrite(&s, "</li>", "\n");
    let s = rewrite(&s, "<h1>", "<b>");
    let s = rewrite(&s, "</h1>", "</b>\n");
    let s = rewrite(&s, "<h2>", "<b>");
    let s = rewrite(&s, "</h2>", "</b>\n");
    let s = rewrite(&s, "<h3>", "<b>");
    let s = rewrite(&s, "</h3>", "</b>\n");
    let s = rewrite(&s, "<p>", "");
    let s = rewrite(&s, "</p>", "\n");
    let s = rewrite(&s, "<br>", "\n");
    let s = rewrite(&s, "<br/>", "\n");
    let s = rewrite(&s, "<strong>", "<b>");
    let s = rewrite(&s, "</strong>", "</b>");
    let s = rewrite(&s, "<em>", "<i>");
    let s = rewrite(&s, "</em>", "</i>");
    let s = rewrite(&s, "<div>", "");
    let s = rewrite(&s, "</div>", "\n");
    let s = rewrite(&s, "<span>", "");
    let s = rewrite(&s, "</span>", "");
    let s = rewrite(&s, "\n\n\n", "\n\n");
    let t = trim_exec(&s);
    proof {
        lemma_trim_is_trimmed(s@);
    }
    from_chars(&t)
}

} // verus!
