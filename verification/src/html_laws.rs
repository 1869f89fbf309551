//! What `sanitize_html` does to each kind of markup, stated over all texts
//! around it.
//!
//! Plain text here has no `<`, `>`, `*` or line break; each law below puts
//! plain text around one piece of markup (or a run of line breaks, or spaces)
//! and says what the reply becomes.
use vstd::prelude::*;
use crate::html::{
    bold_close, bold_open, bold_round, convert_bold, double_star, lemma_trim_of_trimmed,
    sanitized,
};
use crate::text::{
    is_white_space, lemma_replace_absent, lemma_replace_past_prefix, matches_at, occurs_in,
    replace_all, replace_first, trim, trim_end, trim_start,
};

verus! {

/// `c` is neither `<`, `>`, `*` nor a line break.
pub open spec fn is_plain_char(c: char) -> bool {
    c != '<' && c != '>' && c != '*' && c != '\n'
}

/// Every character of `s` is plain.
pub open spec fn plain(s: Seq<char>) -> bool {
    forall|i: int| 0 <= i < s.len() ==> is_plain_char(#[trigger] s[i])
}

/// Plain text that starts and ends with a character other than white space.
pub open spec fn plain_edge(s: Seq<char>) -> bool {
    &&& plain(s)
    &&& s.len() > 0
    &&& !is_white_space(s[0])
    &&& !is_white_space(s.last())
}

/// An HTML tag: `<`, then characters other than `<` and `>`, then `>`; no
/// `*` and no line break anywhere.
spec fn tag(t: Seq<char>) -> bool {
    &&& t.len() >= 2
    &&& t[0] == '<'
    &&& t.last() == '>'
    &&& forall|i: int| 0 < i < t.len() - 1 ==> #[trigger] t[i] != '<' && t[i] != '>'
    &&& forall|i: int| 0 <= i < t.len() ==> #[trigger] t[i] != '*' && t[i] != '\n'
}

/// Text with no line break.
spec fn no_nl(s: Seq<char>) -> bool {
    forall|i: int| 0 <= i < s.len() ==> #[trigger] s[i] != '\n'
}

/// Text with no `<` and no `*`.
spec fn free(u: Seq<char>) -> bool {
    forall|i: int| 0 <= i < u.len() ==> #[trigger] u[i] != '<' && u[i] != '*'
}

/// Each chunk is a tag (or nothing) followed by free text.
spec fn chunks_valid(cs: Seq<(Seq<char>, Seq<char>)>) -> bool {
    forall|i: int|
        0 <= i < cs.len() ==> ((#[trigger] cs[i]).0.len() == 0 || tag(cs[i].0)) && free(cs[i].1)
}

/// The text that the chunks make up.
spec fn join(cs: Seq<(Seq<char>, Seq<char>)>) -> Seq<char>
    decreases cs.len(),
{
    if cs.len() == 0 {
        Seq::empty()
    } else {
        cs[0].0 + cs[0].1 + join(cs.drop_first())
    }
}

/// The chunks after the tag `q` is replaced by the tag `rt` and the text `ru`.
spec fn stage_map(cs: Seq<(Seq<char>, Seq<char>)>, q: Seq<char>, rt: Seq<char>, ru: Seq<char>) -> Seq<
    (Seq<char>, Seq<char>),
> {
    cs.map_values(
        |c: (Seq<char>, Seq<char>)|
            if c.0 == q {
                (rt, ru + c.1)
            } else {
                c
            },
    )
}

proof fn lemma_join2(a: (Seq<char>, Seq<char>), b: (Seq<char>, Seq<char>))
    ensures
        join(seq![a, b]) == a.0 + a.1 + (b.0 + b.1),
{
    assert(seq![a, b].drop_first() =~= seq![b]);
    assert(seq![b].drop_first() =~= Seq::<(Seq<char>, Seq<char>)>::empty());
    assert(join(Seq::<(Seq<char>, Seq<char>)>::empty()) == Seq::<char>::empty());
    assert(join(seq![b]) == b.0 + b.1 + join(seq![b].drop_first()));
    assert(b.0 + b.1 + Seq::<char>::empty() =~= b.0 + b.1);
    assert(join(seq![a, b]) == a.0 + a.1 + join(seq![a, b].drop_first()));
}

proof fn lemma_join3(a: (Seq<char>, Seq<char>), b: (Seq<char>, Seq<char>), c: (Seq<char>, Seq<char>))
    ensures
        join(seq![a, b, c]) == a.0 + a.1 + (b.0 + b.1 + (c.0 + c.1)),
{
    assert(seq![a, b, c].drop_first() =~= seq![b, c]);
    lemma_join2(b, c);
}

/// Free text starts no occurrence of a tag.
proof fn lemma_free_no_match(u: Seq<char>, b: Seq<char>, q: Seq<char>)
    requires
        free(u),
        q.len() > 0,
        q[0] == '<',
    ensures
        forall|i: int| 0 <= i < u.len() ==> !matches_at(u + b, q, i),
{
    assert forall|i: int| 0 <= i < u.len() implies !matches_at(u + b, q, i) by {
        if matches_at(u + b, q, i) {
            assert((u + b).subrange(i, i + q.len())[0] == (u + b)[i]);
        }
    }
}

/// A tag other than `q` starts no occurrence of `q`, whatever follows it.
proof fn lemma_tag_no_match(t: Seq<char>, b: Seq<char>, q: Seq<char>)
    requires
        tag(t),
        tag(q),
        t != q,
    ensures
        forall|i: int| 0 <= i < t.len() ==> !matches_at(t + b, q, i),
{
    let s = t + b;
    assert forall|i: int| 0 <= i < t.len() implies !matches_at(s, q, i) by {
        if matches_at(s, q, i) {
            let m = s.subrange(i, i + q.len());
            assert(m[0] == s[i]);
            if i > 0 {
                assert(s[i] == t[i]);
            } else {
                let n = t.len();
                let k = q.len();
                if k <= n {
                    assert(m[k - 1] == t[k - 1]);
                    if k < n {
                        assert(t[k - 1] != '>');
                    } else {
                        assert(t =~= s.subrange(0, n as int));
                    }
                } else {
                    assert(m[n - 1] == t[n - 1]);
                    assert(q[n - 1] != '>');
                }
            }
        }
    }
}

proof fn lemma_free_concat(a: Seq<char>, b: Seq<char>)
    requires
        free(a),
        free(b),
    ensures
        free(a + b),
{
    assert forall|i: int| 0 <= i < (a + b).len() implies (a + b)[i] != '<' && (a + b)[i] != '*' by {
        if i < a.len() {
            assert((a + b)[i] == a[i]);
        } else {
            assert((a + b)[i] == b[i - a.len()]);
        }
    }
}

/// One replacement of a tag by a tag and free text, chunk by chunk.
proof fn lemma_stage(cs: Seq<(Seq<char>, Seq<char>)>, q: Seq<char>, rt: Seq<char>, ru: Seq<char>)
    requires
        tag(q),
        rt.len() == 0 || tag(rt),
        free(ru),
        chunks_valid(cs),
    ensures
        replace_all(join(cs), q, rt + ru) == join(stage_map(cs, q, rt, ru)),
        chunks_valid(stage_map(cs, q, rt, ru)),
    decreases cs.len(),
{
    let sm = stage_map(cs, q, rt, ru);
    let r = rt + ru;
    assert forall|i: int| 0 <= i < sm.len() implies ((#[trigger] sm[i]).0.len() == 0 || tag(
        sm[i].0,
    )) && free(sm[i].1) by {
        assert(cs[i].0.len() == 0 || tag(cs[i].0));
        if cs[i].0 == q {
            lemma_free_concat(ru, cs[i].1);
        }
    }
    if cs.len() == 0 {
        assert(sm =~= Seq::<(Seq<char>, Seq<char>)>::empty());
    } else {
        let t = cs[0].0;
        let u = cs[0].1;
        let rest = cs.drop_first();
        assert(chunks_valid(rest)) by {
            assert forall|i: int| 0 <= i < rest.len() implies ((#[trigger] rest[i]).0.len() == 0
                || tag(rest[i].0)) && free(rest[i].1) by {
                assert(rest[i] == cs[i + 1]);
            }
        }
        lemma_stage(rest, q, rt, ru);
        assert(sm.drop_first() =~= stage_map(rest, q, rt, ru));
        let jr = join(rest);
        assert(cs[0].0.len() == 0 || tag(cs[0].0));
        assert(free(cs[0].1));
        lemma_free_no_match(u, jr, q);
        lemma_replace_past_prefix(u, jr, q, r);
        if t == q {
            let s = t + u + jr;
            assert(s.take(q.len() as int) =~= q);
            assert(s.skip(q.len() as int) =~= u + jr);
            assert(sm[0] == (rt, ru + u));
            assert(r + (u + replace_all(jr, q, r)) =~= rt + (ru + u) + join(sm.drop_first()));
        } else {
            if t.len() > 0 {
                lemma_tag_no_match(t, u + jr, q);
                lemma_replace_past_prefix(t, u + jr, q, r);
            } else {
                assert(t + (u + jr) =~= u + jr);
            }
            assert(t + u + jr =~= t + (u + jr));
            assert(sm[0] == cs[0]);
        }
    }
}

/// A text without `*` holds no `**`, so the bold conversion leaves it alone.
proof fn lemma_no_star_bold(s: Seq<char>)
    requires
        forall|i: int| 0 <= i < s.len() ==> s[i] != '*',
    ensures
        convert_bold(s) == s,
{
    if occurs_in(s, double_star()) {
        let i = choose|i: int| matches_at(s, double_star(), i);
        assert(s.subrange(i, i + 2)[0] == s[i]);
    }
}

/// The chunks hold no `*`.
proof fn lemma_join_no_star(cs: Seq<(Seq<char>, Seq<char>)>)
    requires
        chunks_valid(cs),
    ensures
        forall|i: int| 0 <= i < join(cs).len() ==> join(cs)[i] != '*',
    decreases cs.len(),
{
    if cs.len() > 0 {
        let rest = cs.drop_first();
        assert(chunks_valid(rest)) by {
            assert forall|i: int| 0 <= i < rest.len() implies ((#[trigger] rest[i]).0.len() == 0
                || tag(rest[i].0)) && free(rest[i].1) by {
                assert(rest[i] == cs[i + 1]);
            }
        }
        lemma_join_no_star(rest);
        assert(cs[0].0.len() == 0 || tag(cs[0].0));
        assert(free(cs[0].1));
        let a = cs[0].0;
        let b = cs[0].1;
        let c = join(rest);
        assert forall|i: int| 0 <= i < join(cs).len() implies join(cs)[i] != '*' by {
            if i < a.len() {
                assert(join(cs)[i] == a[i]);
            } else if i < a.len() + b.len() {
                assert(join(cs)[i] == b[i - a.len()]);
            } else {
                assert(join(cs)[i] == c[i - a.len() - b.len()]);
            }
        }
    }
}

/// A text in which no line break is followed by another holds no three line
/// breaks in a row.
proof fn lemma_no_triple_break(a: Seq<char>, b: Seq<char>, r: Seq<char>)
    requires
        no_nl(a),
        no_nl(b),
        b.len() > 0,
    ensures
        replace_all(a + "\n"@ + b, "\n\n\n"@, r) == a + "\n"@ + b,
        replace_all(a + b, "\n\n\n"@, r) == a + b,
{
    reveal_strlit("\n\n\n");
    reveal_strlit("\n");
    let s = a + "\n"@ + b;
    if occurs_in(s, "\n\n\n"@) {
        let i = choose|i: int| matches_at(s, "\n\n\n"@, i);
        let m = s.subrange(i, i + 3);
        assert(m[0] == s[i]);
        assert(m[1] == s[i + 1]);
        if i < a.len() {
            assert(s[i] == a[i]);
        } else if i == a.len() {
            assert(s[i + 1] == b[0]);
        } else {
            assert(s[i] == b[i - a.len() - 1]);
        }
    }
    lemma_replace_absent(s, "\n\n\n"@, r);
    let s2 = a + b;
    if occurs_in(s2, "\n\n\n"@) {
        let i = choose|i: int| matches_at(s2, "\n\n\n"@, i);
        let m = s2.subrange(i, i + 3);
        assert(m[0] == s2[i]);
        if i < a.len() {
            assert(s2[i] == a[i]);
        } else {
            assert(s2[i] == b[i - a.len()]);
        }
    }
    lemma_replace_absent(s2, "\n\n\n"@, r);
}

/// Text whose first part holds no first character of `q` starts no
/// occurrence of `q` there.
proof fn lemma_first_char_absent(a: Seq<char>, b: Seq<char>, q: Seq<char>)
    requires
        q.len() > 0,
        forall|i: int| 0 <= i < a.len() ==> #[trigger] a[i] != q[0],
    ensures
        forall|i: int| 0 <= i < a.len() ==> !matches_at(a + b, q, i),
{
    assert forall|i: int| 0 <= i < a.len() implies !matches_at(a + b, q, i) by {
        if matches_at(a + b, q, i) {
            assert((a + b).subrange(i, i + q.len())[0] == (a + b)[i]);
            assert((a + b)[i] == a[i]);
        }
    }
}

/// Replacing a tag in free text changes nothing.
proof fn lemma_free_text_unchanged(s: Seq<char>, q: Seq<char>, r: Seq<char>)
    requires
        free(s),
        tag(q),
    ensures
        replace_all(s, q, r) == s,
{
    lemma_first_char_absent(s, Seq::<char>::empty(), q);
    assert(s + Seq::<char>::empty() =~= s);
    lemma_replace_past_prefix(s, Seq::<char>::empty(), q, r);
    assert(replace_all(Seq::<char>::empty(), q, r) == Seq::<char>::empty());
}

/// Two `**` around star-free text, with star-free text on either side, become
/// `<b>` and `</b>`.
proof fn lemma_bold_pair(p: Seq<char>, t: Seq<char>, q: Seq<char>)
    requires
        forall|i: int| 0 <= i < p.len() ==> #[trigger] p[i] != '*',
        forall|i: int| 0 <= i < t.len() ==> #[trigger] t[i] != '*',
        forall|i: int| 0 <= i < q.len() ==> #[trigger] q[i] != '*',
    ensures
        convert_bold(p + "**"@ + t + "**"@ + q) == p + "<b>"@ + t + "</b>"@ + q,
{
    reveal_strlit("**");
    reveal_strlit("<b>");
    reveal_strlit("</b>");
    let ds = double_star();
    let bo = bold_open();
    let bc = bold_close();
    assert("**"@ =~= ds);
    assert("<b>"@ =~= bo);
    assert("</b>"@ =~= bc);
    let s = p + ds + t + ds + q;
    let rest = ds + t + ds + q;
    assert(s =~= p + rest);
    assert(s.subrange(p.len() as int, p.len() + 2int) =~= ds);
    assert(matches_at(s, ds, p.len() as int));
    lemma_first_char_absent(p, rest, ds);
    lemma_replace_past_prefix(p, rest, ds, bo);
    assert(rest.take(2) =~= ds);
    assert(rest.skip(2) =~= t + ds + q);
    let s1 = p + bo + t + ds + q;
    assert(replace_first(s, ds, bo) =~= s1);
    let a1 = p + bo + t;
    assert forall|i: int| 0 <= i < a1.len() implies #[trigger] a1[i] != ds[0] by {
        if i < p.len() {
            assert(a1[i] == p[i]);
        } else if i < p.len() + 3 {
            assert(a1[i] == bo[i - p.len()]);
        } else {
            assert(a1[i] == t[i - p.len() - 3]);
        }
    }
    assert(s1 =~= a1 + (ds + q));
    lemma_first_char_absent(a1, ds + q, ds);
    lemma_replace_past_prefix(a1, ds + q, ds, bc);
    assert((ds + q).take(2) =~= ds);
    assert((ds + q).skip(2) =~= q);
    let s2 = p + bo + t + bc + q;
    assert(replace_first(s1, ds, bc) =~= s2);
    assert(bold_round(s) == s2);
    assert forall|i: int| 0 <= i < s2.len() implies s2[i] != '*' by {
        if i < p.len() {
            assert(s2[i] == p[i]);
        } else if i < p.len() + 3 {
            assert(s2[i] == bo[i - p.len()]);
        } else if i < p.len() + 3 + t.len() {
            assert(s2[i] == t[i - p.len() - 3]);
        } else if i < p.len() + 3 + t.len() + 4 {
            assert(s2[i] == bc[i - p.len() - 3 - t.len()]);
        } else {
            assert(s2[i] == q[i - p.len() - 3 - t.len() - 4]);
        }
    }
    lemma_no_star_bold(s2);
}

/// Leading spaces are what `trim_start` takes off.
proof fn lemma_trim_start_spaces(w: Seq<char>, s: Seq<char>)
    requires
        forall|i: int| 0 <= i < w.len() ==> #[trigger] w[i] == ' ',
        s.len() > 0,
        !is_white_space(s[0]),
    ensures
        trim_start(w + s) == s,
    decreases w.len(),
{
    if w.len() == 0 {
        assert(w + s =~= s);
    } else {
        assert((w + s)[0] == w[0]);
        assert((w + s).skip(1) =~= w.skip(1) + s);
        lemma_trim_start_spaces(w.skip(1), s);
    }
}

/// Trailing spaces are what `trim_end` takes off.
proof fn lemma_trim_end_spaces(s: Seq<char>, w: Seq<char>)
    requires
        forall|i: int| 0 <= i < w.len() ==> #[trigger] w[i] == ' ',
        s.len() > 0,
        !is_white_space(s.last()),
    ensures
        trim_end(s + w) == s,
    decreases w.len(),
{
    if w.len() == 0 {
        assert(s + w =~= s);
    } else {
        assert((s + w).last() == w.last());
        assert((s + w).drop_last() =~= s + w.drop_last());
        lemma_trim_end_spaces(s, w.drop_last());
    }
}

/// A single `**` between star-free texts becomes `<b>`.
proof fn lemma_bold_unpaired(p: Seq<char>, q: Seq<char>)
    requires
        forall|i: int| 0 <= i < p.len() ==> #[trigger] p[i] != '*',
        forall|i: int| 0 <= i < q.len() ==> #[trigger] q[i] != '*',
    ensures
        convert_bold(p + "**"@ + q) == p + "<b>"@ + q,
{
    reveal_strlit("**");
    reveal_strlit("<b>");
    let ds = double_star();
    let bo = bold_open();
    assert("**"@ =~= ds);
    assert("<b>"@ =~= bo);
    let s = p + ds + q;
    let rest = ds + q;
    assert(s =~= p + rest);
    assert(s.subrange(p.len() as int, p.len() + 2int) =~= ds);
    assert(matches_at(s, ds, p.len() as int));
    lemma_first_char_absent(p, rest, ds);
    lemma_replace_past_prefix(p, rest, ds, bo);
    assert(rest.take(2) =~= ds);
    assert(rest.skip(2) =~= q);
    let s1 = p + bo + q;
    assert(replace_first(s, ds, bo) =~= s1);
    assert forall|i: int| 0 <= i < s1.len() implies s1[i] != '*' by {
        if i < p.len() {
            assert(s1[i] == p[i]);
        } else if i < p.len() + 3 {
            assert(s1[i] == bo[i - p.len()]);
        } else {
            assert(s1[i] == q[i - p.len() - 3]);
        }
    }
    if occurs_in(s1, ds) {
        let i = choose|i: int| matches_at(s1, ds, i);
        assert(s1.subrange(i, i + 2)[0] == s1[i]);
    }
    lemma_replace_absent(s1, ds, bold_close());
    assert(bold_round(s) == s1);
    lemma_no_star_bold(s1);
}

proof fn lemma_plain_free(s: Seq<char>)
    requires
        plain(s),
    ensures
        free(s),
        no_nl(s),
{
}

} // verus!

verus! {

/// The facts about the tags that the laws below rely on.
proof fn lemma_tag_literals()
    ensures
        tag("<ul>"@),
        tag("</ul>"@),
        tag("<ol>"@),
        tag("</ol>"@),
        tag("<li>"@),
        tag("</li>"@),
        tag("<h1>"@),
        tag("</h1>"@),
        tag("<h2>"@),
        tag("</h2>"@),
        tag("<h3>"@),
        tag("</h3>"@),
        tag("<p>"@),
        tag("</p>"@),
        tag("<br>"@),
        tag("<br/>"@),
        tag("<strong>"@),
        tag("</strong>"@),
        tag("<em>"@),
        tag("</em>"@),
        tag("<div>"@),
        tag("</div>"@),
        tag("<span>"@),
        tag("</span>"@),
        tag("<b>"@),
        tag("</b>"@),
        tag("<i>"@),
        tag("</i>"@),
        "<ul>"@.len() == 4,
        "</ul>"@.len() == 5,
        "<ol>"@.len() == 4,
        "</ol>"@.len() == 5,
        "<li>"@.len() == 4,
        "</li>"@.len() == 5,
        "<h1>"@.len() == 4,
        "</h1>"@.len() == 5,
        "<h2>"@.len() == 4,
        "</h2>"@.len() == 5,
        "<h3>"@.len() == 4,
        "</h3>"@.len() == 5,
        "<p>"@.len() == 3,
        "</p>"@.len() == 4,
        "<br>"@.len() == 4,
        "<br/>"@.len() == 5,
        "<strong>"@.len() == 8,
        "</strong>"@.len() == 9,
        "<em>"@.len() == 4,
        "</em>"@.len() == 5,
        "<div>"@.len() == 5,
        "</div>"@.len() == 6,
        "<span>"@.len() == 6,
        "</span>"@.len() == 7,
        "<b>"@.len() == 3,
        "</b>"@.len() == 4,
        "<i>"@.len() == 3,
        "</i>"@.len() == 4,
        "<ul>"@ != "<ol>"@,
        "<ul>"@ != "<li>"@,
        "<ul>"@ != "<h1>"@,
        "<ul>"@ != "<h2>"@,
        "<ul>"@ != "<h3>"@,
        "<ul>"@ != "</p>"@,
        "<ul>"@ != "<br>"@,
        "<ul>"@ != "<em>"@,
        "<ul>"@ != "</b>"@,
        "<ul>"@ != "</i>"@,
        "</ul>"@ != "</ol>"@,
        "</ul>"@ != "</li>"@,
        "</ul>"@ != "</h1>"@,
        "</ul>"@ != "</h2>"@,
        "</ul>"@ != "</h3>"@,
        "</ul>"@ != "<br/>"@,
        "</ul>"@ != "</em>"@,
        "</ul>"@ != "<div>"@,
        "<ol>"@ != "<li>"@,
        "<ol>"@ != "<h1>"@,
        "<ol>"@ != "<h2>"@,
        "<ol>"@ != "<h3>"@,
        "<ol>"@ != "</p>"@,
        "<ol>"@ != "<br>"@,
        "<ol>"@ != "<em>"@,
        "<ol>"@ != "</b>"@,
        "<ol>"@ != "</i>"@,
        "</ol>"@ != "</li>"@,
        "</ol>"@ != "</h1>"@,
        "</ol>"@ != "</h2>"@,
        "</ol>"@ != "</h3>"@,
        "</ol>"@ != "<br/>"@,
        "</ol>"@ != "</em>"@,
        "</ol>"@ != "<div>"@,
        "<li>"@ != "<h1>"@,
        "<li>"@ != "<h2>"@,
        "<li>"@ != "<h3>"@,
        "<li>"@ != "</p>"@,
        "<li>"@ != "<br>"@,
        "<li>"@ != "<em>"@,
        "<li>"@ != "</b>"@,
        "<li>"@ != "</i>"@,
        "</li>"@ != "</h1>"@,
        "</li>"@ != "</h2>"@,
        "</li>"@ != "</h3>"@,
        "</li>"@ != "<br/>"@,
        "</li>"@ != "</em>"@,
        "</li>"@ != "<div>"@,
        "<h1>"@ != "<h2>"@,
        "<h1>"@ != "<h3>"@,
        "<h1>"@ != "</p>"@,
        "<h1>"@ != "<br>"@,
        "<h1>"@ != "<em>"@,
        "<h1>"@ != "</b>"@,
        "<h1>"@ != "</i>"@,
        "</h1>"@ != "</h2>"@,
        "</h1>"@ != "</h3>"@,
        "</h1>"@ != "<br/>"@,
        "</h1>"@ != "</em>"@,
        "</h1>"@ != "<div>"@,
        "<h2>"@ != "<h3>"@,
        "<h2>"@ != "</p>"@,
        "<h2>"@ != "<br>"@,
        "<h2>"@ != "<em>"@,
        "<h2>"@ != "</b>"@,
        "<h2>"@ != "</i>"@,
        "</h2>"@ != "</h3>"@,
        "</h2>"@ != "<br/>"@,
        "</h2>"@ != "</em>"@,
        "</h2>"@ != "<div>"@,
        "<h3>"@ != "</p>"@,
        "<h3>"@ != "<br>"@,
        "<h3>"@ != "<em>"@,
        "<h3>"@ != "</b>"@,
        "<h3>"@ != "</i>"@,
        "</h3>"@ != "<br/>"@,
        "</h3>"@ != "</em>"@,
        "</h3>"@ != "<div>"@,
        "<p>"@ != "<b>"@,
        "<p>"@ != "<i>"@,
        "</p>"@ != "<br>"@,
        "</p>"@ != "<em>"@,
        "</p>"@ != "</b>"@,
        "</p>"@ != "</i>"@,
        "<br>"@ != "<em>"@,
        "<br>"@ != "</b>"@,
        "<br>"@ != "</i>"@,
        "<br/>"@ != "</em>"@,
        "<br/>"@ != "<div>"@,
        "<em>"@ != "</b>"@,
        "<em>"@ != "</i>"@,
        "</em>"@ != "<div>"@,
        "</div>"@ != "<span>"@,
        "<b>"@ != "<i>"@,
        "</b>"@ != "</i>"@,
        ""@ == Seq::<char>::empty(),
        free("\n"@),
        free("• "@),
        no_nl("• "@),
        "</b>"@ + "\n"@ == "</b>\n"@,
        Seq::<char>::empty() + "\n"@ == "\n"@,
        Seq::<char>::empty() + "• "@ == "• "@,
        Seq::<char>::empty() + Seq::<char>::empty() == ""@,
        "<b>"@ + Seq::<char>::empty() == "<b>"@,
        "</b>"@ + Seq::<char>::empty() == "</b>"@,
        "<i>"@ + Seq::<char>::empty() == "<i>"@,
        "</i>"@ + Seq::<char>::empty() == "</i>"@,
{
    reveal_strlit("");
    reveal_strlit("</b>");
    reveal_strlit("</b>\n");
    reveal_strlit("</div>");
    reveal_strlit("</em>");
    reveal_strlit("</h1>");
    reveal_strlit("</h2>");
    reveal_strlit("</h3>");
    reveal_strlit("</i>");
    reveal_strlit("</li>");
    reveal_strlit("</ol>");
    reveal_strlit("</p>");
    reveal_strlit("</span>");
    reveal_strlit("</strong>");
    reveal_strlit("</ul>");
    reveal_strlit("<b>");
    reveal_strlit("<br/>");
    reveal_strlit("<br>");
    reveal_strlit("<div>");
    reveal_strlit("<em>");
    reveal_strlit("<h1>");
    reveal_strlit("<h2>");
    reveal_strlit("<h3>");
    reveal_strlit("<i>");
    reveal_strlit("<li>");
    reveal_strlit("<ol>");
    reveal_strlit("<p>");
    reveal_strlit("<span>");
    reveal_strlit("<strong>");
    reveal_strlit("<ul>");
    reveal_strlit("\n");
    reveal_strlit("• ");
    assert("<ul>"@[1] != "<ol>"@[1]);
    assert("<ul>"@[1] != "<li>"@[1]);
    assert("<ul>"@[1] != "<h1>"@[1]);
    assert("<ul>"@[1] != "<h2>"@[1]);
    assert("<ul>"@[1] != "<h3>"@[1]);
    assert("<ul>"@[1] != "</p>"@[1]);
    assert("<ul>"@[1] != "<br>"@[1]);
    assert("<ul>"@[1] != "<em>"@[1]);
    assert("<ul>"@[1] != "</b>"@[1]);
    assert("<ul>"@[1] != "</i>"@[1]);
    assert("</ul>"@[2] != "</ol>"@[2]);
    assert("</ul>"@[2] != "</li>"@[2]);
    assert("</ul>"@[2] != "</h1>"@[2]);
    assert("</ul>"@[2] != "</h2>"@[2]);
    assert("</ul>"@[2] != "</h3>"@[2]);
    assert("</ul>"@[1] != "<br/>"@[1]);
    assert("</ul>"@[2] != "</em>"@[2]);
    assert("</ul>"@[1] != "<div>"@[1]);
    assert("<ol>"@[1] != "<li>"@[1]);
    assert("<ol>"@[1] != "<h1>"@[1]);
    assert("<ol>"@[1] != "<h2>"@[1]);
    assert("<ol>"@[1] != "<h3>"@[1]);
    assert("<ol>"@[1] != "</p>"@[1]);
    assert("<ol>"@[1] != "<br>"@[1]);
    assert("<ol>"@[1] != "<em>"@[1]);
    assert("<ol>"@[1] != "</b>"@[1]);
    assert("<ol>"@[1] != "</i>"@[1]);
    assert("</ol>"@[2] != "</li>"@[2]);
    assert("</ol>"@[2] != "</h1>"@[2]);
    assert("</ol>"@[2] != "</h2>"@[2]);
    assert("</ol>"@[2] != "</h3>"@[2]);
    assert("</ol>"@[1] != "<br/>"@[1]);
    assert("</ol>"@[2] != "</em>"@[2]);
    assert("</ol>"@[1] != "<div>"@[1]);
    assert("<li>"@[1] != "<h1>"@[1]);
    assert("<li>"@[1] != "<h2>"@[1]);
    assert("<li>"@[1] != "<h3>"@[1]);
    assert("<li>"@[1] != "</p>"@[1]);
    assert("<li>"@[1] != "<br>"@[1]);
    assert("<li>"@[1] != "<em>"@[1]);
    assert("<li>"@[1] != "</b>"@[1]);
    assert("<li>"@[1] != "</i>"@[1]);
    assert("</li>"@[2] != "</h1>"@[2]);
    assert("</li>"@[2] != "</h2>"@[2]);
    assert("</li>"@[2] != "</h3>"@[2]);
    assert("</li>"@[1] != "<br/>"@[1]);
    assert("</li>"@[2] != "</em>"@[2]);
    assert("</li>"@[1] != "<div>"@[1]);
    assert("<h1>"@[2] != "<h2>"@[2]);
    assert("<h1>"@[2] != "<h3>"@[2]);
    assert("<h1>"@[1] != "</p>"@[1]);
    assert("<h1>"@[1] != "<br>"@[1]);
    assert("<h1>"@[1] != "<em>"@[1]);
    assert("<h1>"@[1] != "</b>"@[1]);
    assert("<h1>"@[1] != "</i>"@[1]);
    assert("</h1>"@[3] != "</h2>"@[3]);
    assert("</h1>"@[3] != "</h3>"@[3]);
    assert("</h1>"@[1] != "<br/>"@[1]);
    assert("</h1>"@[2] != "</em>"@[2]);
    assert("</h1>"@[1] != "<div>"@[1]);
    assert("<h2>"@[2] != "<h3>"@[2]);
    assert("<h2>"@[1] != "</p>"@[1]);
    assert("<h2>"@[1] != "<br>"@[1]);
    assert("<h2>"@[1] != "<em>"@[1]);
    assert("<h2>"@[1] != "</b>"@[1]);
    assert("<h2>"@[1] != "</i>"@[1]);
    assert("</h2>"@[3] != "</h3>"@[3]);
    assert("</h2>"@[1] != "<br/>"@[1]);
    assert("</h2>"@[2] != "</em>"@[2]);
    assert("</h2>"@[1] != "<div>"@[1]);
    assert("<h3>"@[1] != "</p>"@[1]);
    assert("<h3>"@[1] != "<br>"@[1]);
    assert("<h3>"@[1] != "<em>"@[1]);
    assert("<h3>"@[1] != "</b>"@[1]);
    assert("<h3>"@[1] != "</i>"@[1]);
    assert("</h3>"@[1] != "<br/>"@[1]);
    assert("</h3>"@[2] != "</em>"@[2]);
    assert("</h3>"@[1] != "<div>"@[1]);
    assert("<p>"@[1] != "<b>"@[1]);
    assert("<p>"@[1] != "<i>"@[1]);
    assert("</p>"@[1] != "<br>"@[1]);
    assert("</p>"@[1] != "<em>"@[1]);
    assert("</p>"@[2] != "</b>"@[2]);
    assert("</p>"@[2] != "</i>"@[2]);
    assert("<br>"@[1] != "<em>"@[1]);
    assert("<br>"@[1] != "</b>"@[1]);
    assert("<br>"@[1] != "</i>"@[1]);
    assert("<br/>"@[1] != "</em>"@[1]);
    assert("<br/>"@[1] != "<div>"@[1]);
    assert("<em>"@[1] != "</b>"@[1]);
    assert("<em>"@[1] != "</i>"@[1]);
    assert("</em>"@[1] != "<div>"@[1]);
    assert("</div>"@[1] != "<span>"@[1]);
    assert("<b>"@[1] != "<i>"@[1]);
    assert("</b>"@[2] != "</i>"@[2]);
    assert("</b>"@ + "\n"@ =~= "</b>\n"@);
    assert(Seq::<char>::empty() + "\n"@ =~= "\n"@);
    assert(Seq::<char>::empty() + "• "@ =~= "• "@);
    assert(Seq::<char>::empty() + Seq::<char>::empty() =~= ""@);
    assert("<b>"@ + Seq::<char>::empty() =~= "<b>"@);
    assert("</b>"@ + Seq::<char>::empty() =~= "</b>"@);
    assert("<i>"@ + Seq::<char>::empty() =~= "<i>"@);
    assert("</i>"@ + Seq::<char>::empty() =~= "</i>"@);
}

/// A bulleted list's tags are dropped and its end becomes a line break.
#[verifier::spinoff_prover]
#[verifier::rlimit(100)]
pub proof fn lemma_ul_rendered(p: Seq<char>, t: Seq<char>, q: Seq<char>)
    requires
        plain_edge(p),
        plain(t),
        plain_edge(q),
    ensures
        sanitized(p + "<ul>"@ + t + "</ul>"@ + q) == p + ""@ + t + "\n"@ + q,
{
    lemma_tag_literals();
    lemma_plain_free(p);
    lemma_plain_free(t);
    lemma_plain_free(q);
    let c0 = seq![(Seq::<char>::empty(), p), ("<ul>"@, t), ("</ul>"@, q)];
    assert(chunks_valid(c0));
    lemma_join3((Seq::<char>::empty(), p), ("<ul>"@, t), ("</ul>"@, q));
    assert(join(c0) =~= p + "<ul>"@ + t + "</ul>"@ + q);
    lemma_join_no_star(c0);
    lemma_no_star_bold(join(c0));
    let c1 = seq![(Seq::<char>::empty(), p), (Seq::<char>::empty(), t), ("</ul>"@, q)];
    assert(replace_all(join(c0), "<ul>"@, Seq::<char>::empty() + Seq::<char>::empty()) == join(c1) && chunks_valid(c1)) by {
        lemma_stage(c0, "<ul>"@, Seq::<char>::empty(), Seq::<char>::empty());
        assert(stage_map(c0, "<ul>"@, Seq::<char>::empty(), Seq::<char>::empty()) =~= c1);
    }
    let c2 = seq![(Seq::<char>::empty(), p), (Seq::<char>::empty(), t), (Seq::<char>::empty(), "\n"@ + q)];
    assert(replace_all(join(c1), "</ul>"@, Seq::<char>::empty() + "\n"@) == join(c2) && chunks_valid(c2)) by {
        lemma_stage(c1, "</ul>"@, Seq::<char>::empty(), "\n"@);
        assert(stage_map(c1, "</ul>"@, Seq::<char>::empty(), "\n"@) =~= c2);
    }
    let c3 = seq![(Seq::<char>::empty(), p), (Seq::<char>::empty(), t), (Seq::<char>::empty(), "\n"@ + q)];
    assert(replace_all(join(c2), "<ol>"@, Seq::<char>::empty() + Seq::<char>::empty()) == join(c3) && chunks_valid(c3)) by {
        lemma_stage(c2, "<ol>"@, Seq::<char>::empty(), Seq::<char>::empty());
        assert(stage_map(c2, "<ol>"@, Seq::<char>::empty(), Seq::<char>::empty()) =~= c3);
    }
    let c4 = seq![(Seq::<char>::empty(), p), (Seq::<char>::empty(), t), (Seq::<char>::empty(), "\n"@ + q)];
    assert(replace_all(join(c3), "</ol>"@, Seq::<char>::empty() + "\n"@) == join(c4) && chunks_valid(c4)) by {
        lemma_stage(c3, "</ol>"@, Seq::<char>::empty(), "\n"@);
        assert(stage_map(c3, "</ol>"@, Seq::<char>::empty(), "\n"@) =~= c4);
    }
    let c5 = seq![(Seq::<char>::empty(), p), (Seq::<char>::empty(), t), (Seq::<char>::empty(), "\n"@ + q)];
    assert(replace_all(join(c4), "<li>"@, Seq::<char>::empty() + "• "@) == join(c5) && chunks_valid(c5)) by {
        lemma_stage(c4, "<li>"@, Seq::<char>::empty(), "• "@);
        assert(stage_map(c4, "<li>"@, Seq::<char>::empty(), "• "@) =~= c5);
    }
    let c6 = seq![(Seq::<char>::empty(), p), (Seq::<char>::empty(), t), (Seq::<char>::empty(), "\n"@ + q)];
    assert(replace_all(join(c5), "</li>"@, Seq::<char>::empty() + "\n"@) == join(c6) && chunks_valid(c6)) by {
        lemma_stage(c5, "</li>"@, Seq::<char>::empty(), "\n"@);
        assert(stage_map(c5, "</li>"@, Seq::<char>::empty(), "\n"@) =~= c6);
    }
    let c7 = seq![(Seq::<char>::empty(), p), (Seq::<char>::empty(), t), (Seq::<char>::empty(), "\n"@ + q)];
    assert(replace_all(join(c6), "<h1>"@, "<b>"@ + Seq::<char>::empty()) == join(c7) && chunks_valid(c7)) by {
        lemma_stage(c6, "<h1>"@, "<b>"@, Seq::<char>::empty());
        assert(stage_map(c6, "<h1>"@, "<b>"@, Seq::<char>::empty()) =~= c7);
    }
    let c8 = seq![(Seq::<char>::empty(), p), (Seq::<char>::empty(), t), (Seq::<char>::empty(), "\n"@ + q)];
    assert(replace_all(join(c7), "</h1>"@, "</b>"@ + "\n"@) == join(c8) && chunks_valid(c8)) by {
        lemma_stage(c7, "</h1>"@, "</b>"@, "\n"@);
        assert(stage_map(c7, "</h1>"@, "</b>"@, "\n"@) =~= c8);
    }
    let c9 = seq![(Seq::<char>::empty(), p), (Seq::<char>::empty(), t), (Seq::<char>::empty(), "\n"@ + q)];
    assert(replace_all(join(c8), "<h2>"@, "<b>"@ + Seq::<char>::empty()) == join(c9) && chunks_valid(c9)) by {
        lemma_stage(c8, "<h2>"@, "<b>"@, Seq::<char>::empty());
        assert(stage_map(c8, "<h2>"@, "<b>"@, Seq::<char>::empty()) =~= c9);
    }
    let c10 = seq![(Seq::<char>::empty(), p), (Seq::<char>::empty(), t), (Seq::<char>::empty(), "\n"@ + q)];
    assert(replace_all(join(c9), "</h2>"@, "</b>"@ + "\n"@) == join(c10) && chunks_valid(c10)) by {
        lemma_stage(c9, "</h2>"@, "</b>"@, "\n"@);
        assert(stage_map(c9, "</h2>"@, "</b>"@, "\n"@) =~= c10);
    }
    let c11 = seq![(Seq::<char>::empty(), p), (Seq::<char>::empty(), t), (Seq::<char>::empty(), "\n"@ + q)];
    assert(replace_all(join(c10), "<h3>"@, "<b>"@ + Seq::<char>::empty()) == join(c11) && chunks_valid(c11)) by {
        lemma_stage(c10, "<h3>"@, "<b>"@, Seq::<char>::empty());
        assert(stage_map(c10, "<h3>"@, "<b>"@, Seq::<char>::empty()) =~= c11);
    }
    let c12 = seq![(Seq::<char>::empty(), p), (Seq::<char>::empty(), t), (Seq::<char>::empty(), "\n"@ + q)];
    assert(replace_all(join(c11), "</h3>"@, "</b>"@ + "\n"@) == join(c12) && chunks_valid(c12)) by {
        lemma_stage(c11, "</h3>"@, "</b>"@, "\n"@);
        assert(stage_map(c11, "</h3>"@, "</b>"@, "\n"@) =~= c12);
    }
    let c13 = seq![(Seq::<char>::empty(), p), (Seq::<char>::empty(), t), (Seq::<char>::empty(), "\n"@ + q)];
    assert(replace_all(join(c12), "<p>"@, Seq::<char>::empty() + Seq::<char>::empty()) == join(c13) && chunks_valid(c13)) by {
        lemma_stage(c12, "<p>"@, Seq::<char>::empty(), Seq::<char>::empty());
        assert(stage_map(c12, "<p>"@, Seq::<char>::empty(), Seq::<char>::empty()) =~= c13);
    }
    let c14 = seq![(Seq::<char>::empty(), p), (Seq::<char>::empty(), t), (Seq::<char>::empty(), "\n"@ + q)];
    assert(replace_all(join(c13), "</p>"@, Seq::<char>::empty() + "\n"@) == join(c14) && chunks_valid(c14)) by {
        lemma_stage(c13, "</p>"@, Seq::<char>::empty(), "\n"@);
        assert(stage_map(c13, "</p>"@, Seq::<char>::empty(), "\n"@) =~= c14);
    }
    let c15 = seq![(Seq::<char>::empty(), p), (Seq::<char>::empty(), t), (Seq::<char>::empty(), "\n"@ + q)];
    assert(replace_all(join(c14), "<br>"@, Seq::<char>::empty() + "\n"@) == join(c15) && chunks_valid(c15)) by {
        lemma_stage(c14, "<br>"@, Seq::<char>::empty(), "\n"@);
        assert(stage_map(c14, "<br>"@, Seq::<char>::empty(), "\n"@) =~= c15);
    }
    let c16 = seq![(Seq::<char>::empty(), p), (Seq::<char>::empty(), t), (Seq::<char>::empty(), "\n"@ + q)];
    assert(replace_all(join(c15), "<br/>"@, Seq::<char>::empty() + "\n"@) == join(c16) && chunks_valid(c16)) by {
        lemma_stage(c15, "<br/>"@, Seq::<char>::empty(), "\n"@);
        assert(stage_map(c15, "<br/>"@, Seq::<char>::empty(), "\n"@) =~= c16);
    }
    let c17 = seq![(Seq::<char>::empty(), p), (Seq::<char>::empty(), t), (Seq::<char>::empty(), "\n"@ + q)];
    assert(replace_all(join(c16), "<strong>"@, "<b>"@ + Seq::<char>::empty()) == join(c17) && chunks_valid(c17)) by {
        lemma_stage(c16, "<strong>"@, "<b>"@, Seq::<char>::empty());
        assert(stage_map(c16, "<strong>"@, "<b>"@, Seq::<char>::empty()) =~= c17);
    }
    let c18 = seq![(Seq::<char>::empty(), p), (Seq::<char>::empty(), t), (Seq::<char>::empty(), "\n"@ + q)];
    assert(replace_all(join(c17), "</strong>"@, "</b>"@ + Seq::<char>::empty()) == join(c18) && chunks_valid(c18)) by {
        lemma_stage(c17, "</strong>"@, "</b>"@, Seq::<char>::empty());
        assert(stage_map(c17, "</strong>"@, "</b>"@, Seq::<char>::empty()) =~= c18);
    }
    let c19 = seq![(Seq::<char>::empty(), p), (Seq::<char>::empty(), t), (Seq::<char>::empty(), "\n"@ + q)];
    assert(replace_all(join(c18), "<em>"@, "<i>"@ + Seq::<char>::empty()) == join(c19) && chunks_valid(c19)) by {
        lemma_stage(c18, "<em>"@, "<i>"@, Seq::<char>::empty());
        assert(stage_map(c18, "<em>"@, "<i>"@, Seq::<char>::empty()) =~= c19);
    }
    let c20 = seq![(Seq::<char>::empty(), p), (Seq::<char>::empty(), t), (Seq::<char>::empty(), "\n"@ + q)];
    assert(replace_all(join(c19), "</em>"@, "</i>"@ + Seq::<char>::empty()) == join(c20) && chunks_valid(c20)) by {
        lemma_stage(c19, "</em>"@, "</i>"@, Seq::<char>::empty());
        assert(stage_map(c19, "</em>"@, "</i>"@, Seq::<char>::empty()) =~= c20);
    }
    let c21 = seq![(Seq::<char>::empty(), p), (Seq::<char>::empty(), t), (Seq::<char>::empty(), "\n"@ + q)];
    assert(replace_all(join(c20), "<div>"@, Seq::<char>::empty() + Seq::<char>::empty()) == join(c21) && chunks_valid(c21)) by {
        lemma_stage(c20, "<div>"@, Seq::<char>::empty(), Seq::<char>::empty());
        assert(stage_map(c20, "<div>"@, Seq::<char>::empty(), Seq::<char>::empty()) =~= c21);
    }
    let c22 = seq![(Seq::<char>::empty(), p), (Seq::<char>::empty(), t), (Seq::<char>::empty(), "\n"@ + q)];
    assert(replace_all(join(c21), "</div>"@, Seq::<char>::empty() + "\n"@) == join(c22) && chunks_valid(c22)) by {
        lemma_stage(c21, "</div>"@, Seq::<char>::empty(), "\n"@);
        assert(stage_map(c21, "</div>"@, Seq::<char>::empty(), "\n"@) =~= c22);
    }
    let c23 = seq![(Seq::<char>::empty(), p), (Seq::<char>::empty(), t), (Seq::<char>::empty(), "\n"@ + q)];
    assert(replace_all(join(c22), "<span>"@, Seq::<char>::empty() + Seq::<char>::empty()) == join(c23) && chunks_valid(c23)) by {
        lemma_stage(c22, "<span>"@, Seq::<char>::empty(), Seq::<char>::empty());
        assert(stage_map(c22, "<span>"@, Seq::<char>::empty(), Seq::<char>::empty()) =~= c23);
    }
    let c24 = seq![(Seq::<char>::empty(), p), (Seq::<char>::empty(), t), (Seq::<char>::empty(), "\n"@ + q)];
    assert(replace_all(join(c23), "</span>"@, Seq::<char>::empty() + Seq::<char>::empty()) == join(c24) && chunks_valid(c24)) by {
        lemma_stage(c23, "</span>"@, Seq::<char>::empty(), Seq::<char>::empty());
        assert(stage_map(c23, "</span>"@, Seq::<char>::empty(), Seq::<char>::empty()) =~= c24);
    }
    lemma_join3((Seq::<char>::empty(), p), (Seq::<char>::empty(), t), (Seq::<char>::empty(), "\n"@ + q));
    let fin = join(c24);
    assert(sanitized(p + "<ul>"@ + t + "</ul>"@ + q) == trim(replace_all(fin, "\n\n\n"@, "\n\n"@)));
    assert(fin =~= p + ""@ + t + "\n"@ + q);
    assert(no_nl(p + ""@ + t + ""@));
    assert(fin =~= p + ""@ + t + ""@ + "\n"@ + q);
    lemma_no_triple_break(p + ""@ + t + ""@, q, "\n\n"@);
    assert(fin[0] == p[0]);
    assert(fin.last() == q.last());
    lemma_trim_of_trimmed(fin);
}

/// A numbered list's tags are dropped and its end becomes a line break.
#[verifier::spinoff_prover]
#[verifier::rlimit(100)]
pub proof fn lemma_ol_rendered(p: Seq<char>, t: Seq<char>, q: Seq<char>)
    requires
        plain_edge(p),
        plain(t),
        plain_edge(q),
    ensures
        sanitized(p + "<ol>"@ + t + "</ol>"@ + q) == p + ""@ + t + "\n"@ + q,
{
    lemma_tag_literals();
    lemma_plain_free(p);
    lemma_plain_free(t);
    lemma_plain_free(q);
    let c0 = seq![(Seq::<char>::empty(), p), ("<ol>"@, t), ("</ol>"@, q)];
    assert(chunks_valid(c0));
    lemma_join3((Seq::<char>::empty(), p), ("<ol>"@, t), ("</ol>"@, q));
    assert(join(c0) =~= p + "<ol>"@ + t + "</ol>"@ + q);
    lemma_join_no_star(c0);
    lemma_no_star_bold(join(c0));
    let c1 = seq![(Seq::<char>::empty(), p), ("<ol>"@, t), ("</ol>"@, q)];
    assert(replace_all(join(c0), "<ul>"@, Seq::<char>::empty() + Seq::<char>::empty()) == join(c1) && chunks_valid(c1)) by {
        lemma_stage(c0, "<ul>"@, Seq::<char>::empty(), Seq::<char>::empty());
        assert(stage_map(c0, "<ul>"@, Seq::<char>::empty(), Seq::<char>::empty()) =~= c1);
    }
    let c2 = seq![(Seq::<char>::empty(), p), ("<ol>"@, t), ("</ol>"@, q)];
    assert(replace_all(join(c1), "</ul>"@, Seq::<char>::empty() + "\n"@) == join(c2) && chunks_valid(c2)) by {
        lemma_stage(c1, "</ul>"@, Seq::<char>::empty(), "\n"@);
        assert(stage_map(c1, "</ul>"@, Seq::<char>::empty(), "\n"@) =~= c2);
    }
    let c3 = seq![(Seq::<char>::empty(), p), (Seq::<char>::empty(), t), ("</ol>"@, q)];
    assert(replace_all(join(c2), "<ol>"@, Seq::<char>::empty() + Seq::<char>::empty()) == join(c3) && chunks_valid(c3)) by {
        lemma_stage(c2, "<ol>"@, Seq::<char>::empty(), Seq::<char>::empty());
        assert(stage_map(c2, "<ol>"@, Seq::<char>::empty(), Seq::<char>::empty()) =~= c3);
    }
    let c4 = seq![(Seq::<char>::empty(), p), (Seq::<char>::empty(), t), (Seq::<char>::empty(), "\n"@ + q)];
    assert(replace_all(join(c3), "</ol>"@, Seq::<char>::empty() + "\n"@) == join(c4) && chunks_valid(c4)) by {
        lemma_stage(c3, "</ol>"@, Seq::<char>::empty(), "\n"@);
        assert(stage_map(c3, "</ol>"@, Seq::<char>::empty(), "\n"@) =~= c4);
    }
    let c5 = seq![(Seq::<char>::empty(), p), (Seq::<char>::empty(), t), (Seq::<char>::empty(), "\n"@ + q)];
    assert(replace_all(join(c4), "<li>"@, Seq::<char>::empty() + "• "@) == join(c5) && chunks_valid(c5)) by {
        lemma_stage(c4, "<li>"@, Seq::<char>::empty(), "• "@);
        assert(stage_map(c4, "<li>"@, Seq::<char>::empty(), "• "@) =~= c5);
    }
    let c6 = seq![(Seq::<char>::empty(), p), (Seq::<char>::empty(), t), (Seq::<char>::empty(), "\n"@ + q)];
    assert(replace_all(join(c5), "</li>"@, Seq::<char>::empty() + "\n"@) == join(c6) && chunks_valid(c6)) by {
        lemma_stage(c5, "</li>"@, Seq::<char>::empty(), "\n"@);
        assert(stage_map(c5, "</li>"@, Seq::<char>::empty(), "\n"@) =~= c6);
    }
    let c7 = seq![(Seq::<char>::empty(), p), (Seq::<char>::empty(), t), (Seq::<char>::empty(), "\n"@ + q)];
    assert(replace_all(join(c6), "<h1>"@, "<b>"@ + Seq::<char>::empty()) == join(c7) && chunks_valid(c7)) by {
        lemma_stage(c6, "<h1>"@, "<b>"@, Seq::<char>::empty());
        assert(stage_map(c6, "<h1>"@, "<b>"@, Seq::<char>::empty()) =~= c7);
    }
    let c8 = seq![(Seq::<char>::empty(), p), (Seq::<char>::empty(), t), (Seq::<char>::empty(), "\n"@ + q)];
    assert(replace_all(join(c7), "</h1>"@, "</b>"@ + "\n"@) == join(c8) && chunks_valid(c8)) by {
        lemma_stage(c7, "</h1>"@, "</b>"@, "\n"@);
        assert(stage_map(c7, "</h1>"@, "</b>"@, "\n"@) =~= c8);
    }
    let c9 = seq![(Seq::<char>::empty(), p), (Seq::<char>::empty(), t), (Seq::<char>::empty(), "\n"@ + q)];
    assert(replace_all(join(c8), "<h2>"@, "<b>"@ + Seq::<char>::empty()) == join(c9) && chunks_valid(c9)) by {
        lemma_stage(c8, "<h2>"@, "<b>"@, Seq::<char>::empty());
        assert(stage_map(c8, "<h2>"@, "<b>"@, Seq::<char>::empty()) =~= c9);
    }
    let c10 = seq![(Seq::<char>::empty(), p), (Seq::<char>::empty(), t), (Seq::<char>::empty(), "\n"@ + q)];
    assert(replace_all(join(c9), "</h2>"@, "</b>"@ + "\n"@) == join(c10) && chunks_valid(c10)) by {
        lemma_stage(c9, "</h2>"@, "</b>"@, "\n"@);
        assert(stage_map(c9, "</h2>"@, "</b>"@, "\n"@) =~= c10);
    }
    let c11 = seq![(Seq::<char>::empty(), p), (Seq::<char>::empty(), t), (Seq::<char>::empty(), "\n"@ + q)];
    assert(replace_all(join(c10), "<h3>"@, "<b>"@ + Seq::<char>::empty()) == join(c11) && chunks_valid(c11)) by {
        lemma_stage(c10, "<h3>"@, "<b>"@, Seq::<char>::empty());
        assert(stage_map(c10, "<h3>"@, "<b>"@, Seq::<char>::empty()) =~= c11);
    }
    let c12 = seq![(Seq::<char>::empty(), p), (Seq::<char>::empty(), t), (Seq::<char>::empty(), "\n"@ + q)];
    assert(replace_all(join(c11), "</h3>"@, "</b>"@ + "\n"@) == join(c12) && chunks_valid(c12)) by {
        lemma_stage(c11, "</h3>"@, "</b>"@, "\n"@);
        assert(stage_map(c11, "</h3>"@, "</b>"@, "\n"@) =~= c12);
    }
    let c13 = seq![(Seq::<char>::empty(), p), (Seq::<char>::empty(), t), (Seq::<char>::empty(), "\n"@ + q)];
    assert(replace_all(join(c12), "<p>"@, Seq::<char>::empty() + Seq::<char>::empty()) == join(c13) && chunks_valid(c13)) by {
        lemma_stage(c12, "<p>"@, Seq::<char>::empty(), Seq::<char>::empty());
        assert(stage_map(c12, "<p>"@, Seq::<char>::empty(), Seq::<char>::empty()) =~= c13);
    }
    let c14 = seq![(Seq::<char>::empty(), p), (Seq::<char>::empty(), t), (Seq::<char>::empty(), "\n"@ + q)];
    assert(replace_all(join(c13), "</p>"@, Seq::<char>::empty() + "\n"@) == join(c14) && chunks_valid(c14)) by {
        lemma_stage(c13, "</p>"@, Seq::<char>::empty(), "\n"@);
        assert(stage_map(c13, "</p>"@, Seq::<char>::empty(), "\n"@) =~= c14);
    }
    let c15 = seq![(Seq::<char>::empty(), p), (Seq::<char>::empty(), t), (Seq::<char>::empty(), "\n"@ + q)];
    assert(replace_all(join(c14), "<br>"@, Seq::<char>::empty() + "\n"@) == join(c15) && chunks_valid(c15)) by {
        lemma_stage(c14, "<br>"@, Seq::<char>::empty(), "\n"@);
        assert(stage_map(c14, "<br>"@, Seq::<char>::empty(), "\n"@) =~= c15);
    }
    let c16 = seq![(Seq::<char>::empty(), p), (Seq::<char>::empty(), t), (Seq::<char>::empty(), "\n"@ + q)];
    assert(replace_all(join(c15), "<br/>"@, Seq::<char>::empty() + "\n"@) == join(c16) && chunks_valid(c16)) by {
        lemma_stage(c15, "<br/>"@, Seq::<char>::empty(), "\n"@);
        assert(stage_map(c15, "<br/>"@, Seq::<char>::empty(), "\n"@) =~= c16);
    }
    let c17 = seq![(Seq::<char>::empty(), p), (Seq::<char>::empty(), t), (Seq::<char>::empty(), "\n"@ + q)];
    assert(replace_all(join(c16), "<strong>"@, "<b>"@ + Seq::<char>::empty()) == join(c17) && chunks_valid(c17)) by {
        lemma_stage(c16, "<strong>"@, "<b>"@, Seq::<char>::empty());
        assert(stage_map(c16, "<strong>"@, "<b>"@, Seq::<char>::empty()) =~= c17);
    }
    let c18 = seq![(Seq::<char>::empty(), p), (Seq::<char>::empty(), t), (Seq::<char>::empty(), "\n"@ + q)];
    assert(replace_all(join(c17), "</strong>"@, "</b>"@ + Seq::<char>::empty()) == join(c18) && chunks_valid(c18)) by {
        lemma_stage(c17, "</strong>"@, "</b>"@, Seq::<char>::empty());
        assert(stage_map(c17, "</strong>"@, "</b>"@, Seq::<char>::empty()) =~= c18);
    }
    let c19 = seq![(Seq::<char>::empty(), p), (Seq::<char>::empty(), t), (Seq::<char>::empty(), "\n"@ + q)];
    assert(replace_all(join(c18), "<em>"@, "<i>"@ + Seq::<char>::empty()) == join(c19) && chunks_valid(c19)) by {
        lemma_stage(c18, "<em>"@, "<i>"@, Seq::<char>::empty());
        assert(stage_map(c18, "<em>"@, "<i>"@, Seq::<char>::empty()) =~= c19);
    }
    let c20 = seq![(Seq::<char>::empty(), p), (Seq::<char>::empty(), t), (Seq::<char>::empty(), "\n"@ + q)];
    assert(replace_all(join(c19), "</em>"@, "</i>"@ + Seq::<char>::empty()) == join(c20) && chunks_valid(c20)) by {
        lemma_stage(c19, "</em>"@, "</i>"@, Seq::<char>::empty());
        assert(stage_map(c19, "</em>"@, "</i>"@, Seq::<char>::empty()) =~= c20);
    }
    let c21 = seq![(Seq::<char>::empty(), p), (Seq::<char>::empty(), t), (Seq::<char>::empty(), "\n"@ + q)];
    assert(replace_all(join(c20), "<div>"@, Seq::<char>::empty() + Seq::<char>::empty()) == join(c21) && chunks_valid(c21)) by {
        lemma_stage(c20, "<div>"@, Seq::<char>::empty(), Seq::<char>::empty());
        assert(stage_map(c20, "<div>"@, Seq::<char>::empty(), Seq::<char>::empty()) =~= c21);
    }
    let c22 = seq![(Seq::<char>::empty(), p), (Seq::<char>::empty(), t), (Seq::<char>::empty(), "\n"@ + q)];
    assert(replace_all(join(c21), "</div>"@, Seq::<char>::empty() + "\n"@) == join(c22) && chunks_valid(c22)) by {
        lemma_stage(c21, "</div>"@, Seq::<char>::empty(), "\n"@);
        assert(stage_map(c21, "</div>"@, Seq::<char>::empty(), "\n"@) =~= c22);
    }
    let c23 = seq![(Seq::<char>::empty(), p), (Seq::<char>::empty(), t), (Seq::<char>::empty(), "\n"@ + q)];
    assert(replace_all(join(c22), "<span>"@, Seq::<char>::empty() + Seq::<char>::empty()) == join(c23) && chunks_valid(c23)) by {
        lemma_stage(c22, "<span>"@, Seq::<char>::empty(), Seq::<char>::empty());
        assert(stage_map(c22, "<span>"@, Seq::<char>::empty(), Seq::<char>::empty()) =~= c23);
    }
    let c24 = seq![(Seq::<char>::empty(), p), (Seq::<char>::empty(), t), (Seq::<char>::empty(), "\n"@ + q)];
    assert(replace_all(join(c23), "</span>"@, Seq::<char>::empty() + Seq::<char>::empty()) == join(c24) && chunks_valid(c24)) by {
        lemma_stage(c23, "</span>"@, Seq::<char>::empty(), Seq::<char>::empty());
        assert(stage_map(c23, "</span>"@, Seq::<char>::empty(), Seq::<char>::empty()) =~= c24);
    }
    lemma_join3((Seq::<char>::empty(), p), (Seq::<char>::empty(), t), (Seq::<char>::empty(), "\n"@ + q));
    let fin = join(c24);
    assert(sanitized(p + "<ol>"@ + t + "</ol>"@ + q) == trim(replace_all(fin, "\n\n\n"@, "\n\n"@)));
    assert(fin =~= p + ""@ + t + "\n"@ + q);
    assert(no_nl(p + ""@ + t + ""@));
    assert(fin =~= p + ""@ + t + ""@ + "\n"@ + q);
    lemma_no_triple_break(p + ""@ + t + ""@, q, "\n\n"@);
    assert(fin[0] == p[0]);
    assert(fin.last() == q.last());
    lemma_trim_of_trimmed(fin);
}

/// A list item starts with a bullet and ends with a line break.
#[verifier::spinoff_prover]
#[verifier::rlimit(100)]
pub proof fn lemma_li_rendered(p: Seq<char>, t: Seq<char>, q: Seq<char>)
    requires
        plain_edge(p),
        plain(t),
        plain_edge(q),
    ensures
        sanitized(p + "<li>"@ + t + "</li>"@ + q) == p + "• "@ + t + "\n"@ + q,
{
    lemma_tag_literals();
    lemma_plain_free(p);
    lemma_plain_free(t);
    lemma_plain_free(q);
    let c0 = seq![(Seq::<char>::empty(), p), ("<li>"@, t), ("</li>"@, q)];
    assert(chunks_valid(c0));
    lemma_join3((Seq::<char>::empty(), p), ("<li>"@, t), ("</li>"@, q));
    assert(join(c0) =~= p + "<li>"@ + t + "</li>"@ + q);
    lemma_join_no_star(c0);
    lemma_no_star_bold(join(c0));
    let c1 = seq![(Seq::<char>::empty(), p), ("<li>"@, t), ("</li>"@, q)];
    assert(replace_all(join(c0), "<ul>"@, Seq::<char>::empty() + Seq::<char>::empty()) == join(c1) && chunks_valid(c1)) by {
        lemma_stage(c0, "<ul>"@, Seq::<char>::empty(), Seq::<char>::empty());
        assert(stage_map(c0, "<ul>"@, Seq::<char>::empty(), Seq::<char>::empty()) =~= c1);
    }
    let c2 = seq![(Seq::<char>::empty(), p), ("<li>"@, t), ("</li>"@, q)];
    assert(replace_all(join(c1), "</ul>"@, Seq::<char>::empty() + "\n"@) == join(c2) && chunks_valid(c2)) by {
        lemma_stage(c1, "</ul>"@, Seq::<char>::empty(), "\n"@);
        assert(stage_map(c1, "</ul>"@, Seq::<char>::empty(), "\n"@) =~= c2);
    }
    let c3 = seq![(Seq::<char>::empty(), p), ("<li>"@, t), ("</li>"@, q)];
    assert(replace_all(join(c2), "<ol>"@, Seq::<char>::empty() + Seq::<char>::empty()) == join(c3) && chunks_valid(c3)) by {
        lemma_stage(c2, "<ol>"@, Seq::<char>::empty(), Seq::<char>::empty());
        assert(stage_map(c2, "<ol>"@, Seq::<char>::empty(), Seq::<char>::empty()) =~= c3);
    }
    let c4 = seq![(Seq::<char>::empty(), p), ("<li>"@, t), ("</li>"@, q)];
    assert(replace_all(join(c3), "</ol>"@, Seq::<char>::empty() + "\n"@) == join(c4) && chunks_valid(c4)) by {
        lemma_stage(c3, "</ol>"@, Seq::<char>::empty(), "\n"@);
        assert(stage_map(c3, "</ol>"@, Seq::<char>::empty(), "\n"@) =~= c4);
    }
    let c5 = seq![(Seq::<char>::empty(), p), (Seq::<char>::empty(), "• "@ + t), ("</li>"@, q)];
    assert(replace_all(join(c4), "<li>"@, Seq::<char>::empty() + "• "@) == join(c5) && chunks_valid(c5)) by {
        lemma_stage(c4, "<li>"@, Seq::<char>::empty(), "• "@);
        assert(stage_map(c4, "<li>"@, Seq::<char>::empty(), "• "@) =~= c5);
    }
    let c6 = seq![(Seq::<char>::empty(), p), (Seq::<char>::empty(), "• "@ + t), (Seq::<char>::empty(), "\n"@ + q)];
    assert(replace_all(join(c5), "</li>"@, Seq::<char>::empty() + "\n"@) == join(c6) && chunks_valid(c6)) by {
        lemma_stage(c5, "</li>"@, Seq::<char>::empty(), "\n"@);
        assert(stage_map(c5, "</li>"@, Seq::<char>::empty(), "\n"@) =~= c6);
    }
    let c7 = seq![(Seq::<char>::empty(), p), (Seq::<char>::empty(), "• "@ + t), (Seq::<char>::empty(), "\n"@ + q)];
    assert(replace_all(join(c6), "<h1>"@, "<b>"@ + Seq::<char>::empty()) == join(c7) && chunks_valid(c7)) by {
        lemma_stage(c6, "<h1>"@, "<b>"@, Seq::<char>::empty());
        assert(stage_map(c6, "<h1>"@, "<b>"@, Seq::<char>::empty()) =~= c7);
    }
    let c8 = seq![(Seq::<char>::empty(), p), (Seq::<char>::empty(), "• "@ + t), (Seq::<char>::empty(), "\n"@ + q)];
    assert(replace_all(join(c7), "</h1>"@, "</b>"@ + "\n"@) == join(c8) && chunks_valid(c8)) by {
        lemma_stage(c7, "</h1>"@, "</b>"@, "\n"@);
        assert(stage_map(c7, "</h1>"@, "</b>"@, "\n"@) =~= c8);
    }
    let c9 = seq![(Seq::<char>::empty(), p), (Seq::<char>::empty(), "• "@ + t), (Seq::<char>::empty(), "\n"@ + q)];
    assert(replace_all(join(c8), "<h2>"@, "<b>"@ + Seq::<char>::empty()) == join(c9) && chunks_valid(c9)) by {
        lemma_stage(c8, "<h2>"@, "<b>"@, Seq::<char>::empty());
        assert(stage_map(c8, "<h2>"@, "<b>"@, Seq::<char>::empty()) =~= c9);
    }
    let c10 = seq![(Seq::<char>::empty(), p), (Seq::<char>::empty(), "• "@ + t), (Seq::<char>::empty(), "\n"@ + q)];
    assert(replace_all(join(c9), "</h2>"@, "</b>"@ + "\n"@) == join(c10) && chunks_valid(c10)) by {
        lemma_stage(c9, "</h2>"@, "</b>"@, "\n"@);
        assert(stage_map(c9, "</h2>"@, "</b>"@, "\n"@) =~= c10);
    }
    let c11 = seq![(Seq::<char>::empty(), p), (Seq::<char>::empty(), "• "@ + t), (Seq::<char>::empty(), "\n"@ + q)];
    assert(replace_all(join(c10), "<h3>"@, "<b>"@ + Seq::<char>::empty()) == join(c11) && chunks_valid(c11)) by {
        lemma_stage(c10, "<h3>"@, "<b>"@, Seq::<char>::empty());
        assert(stage_map(c10, "<h3>"@, "<b>"@, Seq::<char>::empty()) =~= c11);
    }
    let c12 = seq![(Seq::<char>::empty(), p), (Seq::<char>::empty(), "• "@ + t), (Seq::<char>::empty(), "\n"@ + q)];
    assert(replace_all(join(c11), "</h3>"@, "</b>"@ + "\n"@) == join(c12) && chunks_valid(c12)) by {
        lemma_stage(c11, "</h3>"@, "</b>"@, "\n"@);
        assert(stage_map(c11, "</h3>"@, "</b>"@, "\n"@) =~= c12);
    }
    let c13 = seq![(Seq::<char>::empty(), p), (Seq::<char>::empty(), "• "@ + t), (Seq::<char>::empty(), "\n"@ + q)];
    assert(replace_all(join(c12), "<p>"@, Seq::<char>::empty() + Seq::<char>::empty()) == join(c13) && chunks_valid(c13)) by {
        lemma_stage(c12, "<p>"@, Seq::<char>::empty(), Seq::<char>::empty());
        assert(stage_map(c12, "<p>"@, Seq::<char>::empty(), Seq::<char>::empty()) =~= c13);
    }
    let c14 = seq![(Seq::<char>::empty(), p), (Seq::<char>::empty(), "• "@ + t), (Seq::<char>::empty(), "\n"@ + q)];
    assert(replace_all(join(c13), "</p>"@, Seq::<char>::empty() + "\n"@) == join(c14) && chunks_valid(c14)) by {
        lemma_stage(c13, "</p>"@, Seq::<char>::empty(), "\n"@);
        assert(stage_map(c13, "</p>"@, Seq::<char>::empty(), "\n"@) =~= c14);
    }
    let c15 = seq![(Seq::<char>::empty(), p), (Seq::<char>::empty(), "• "@ + t), (Seq::<char>::empty(), "\n"@ + q)];
    assert(replace_all(join(c14), "<br>"@, Seq::<char>::empty() + "\n"@) == join(c15) && chunks_valid(c15)) by {
        lemma_stage(c14, "<br>"@, Seq::<char>::empty(), "\n"@);
        assert(stage_map(c14, "<br>"@, Seq::<char>::empty(), "\n"@) =~= c15);
    }
    let c16 = seq![(Seq::<char>::empty(), p), (Seq::<char>::empty(), "• "@ + t), (Seq::<char>::empty(), "\n"@ + q)];
    assert(replace_all(join(c15), "<br/>"@, Seq::<char>::empty() + "\n"@) == join(c16) && chunks_valid(c16)) by {
        lemma_stage(c15, "<br/>"@, Seq::<char>::empty(), "\n"@);
        assert(stage_map(c15, "<br/>"@, Seq::<char>::empty(), "\n"@) =~= c16);
    }
    let c17 = seq![(Seq::<char>::empty(), p), (Seq::<char>::empty(), "• "@ + t), (Seq::<char>::empty(), "\n"@ + q)];
    assert(replace_all(join(c16), "<strong>"@, "<b>"@ + Seq::<char>::empty()) == join(c17) && chunks_valid(c17)) by {
        lemma_stage(c16, "<strong>"@, "<b>"@, Seq::<char>::empty());
        assert(stage_map(c16, "<strong>"@, "<b>"@, Seq::<char>::empty()) =~= c17);
    }
    let c18 = seq![(Seq::<char>::empty(), p), (Seq::<char>::empty(), "• "@ + t), (Seq::<char>::empty(), "\n"@ + q)];
    assert(replace_all(join(c17), "</strong>"@, "</b>"@ + Seq::<char>::empty()) == join(c18) && chunks_valid(c18)) by {
        lemma_stage(c17, "</strong>"@, "</b>"@, Seq::<char>::empty());
        assert(stage_map(c17, "</strong>"@, "</b>"@, Seq::<char>::empty()) =~= c18);
    }
    let c19 = seq![(Seq::<char>::empty(), p), (Seq::<char>::empty(), "• "@ + t), (Seq::<char>::empty(), "\n"@ + q)];
    assert(replace_all(join(c18), "<em>"@, "<i>"@ + Seq::<char>::empty()) == join(c19) && chunks_valid(c19)) by {
        lemma_stage(c18, "<em>"@, "<i>"@, Seq::<char>::empty());
        assert(stage_map(c18, "<em>"@, "<i>"@, Seq::<char>::empty()) =~= c19);
    }
    let c20 = seq![(Seq::<char>::empty(), p), (Seq::<char>::empty(), "• "@ + t), (Seq::<char>::empty(), "\n"@ + q)];
    assert(replace_all(join(c19), "</em>"@, "</i>"@ + Seq::<char>::empty()) == join(c20) && chunks_valid(c20)) by {
        lemma_stage(c19, "</em>"@, "</i>"@, Seq::<char>::empty());
        assert(stage_map(c19, "</em>"@, "</i>"@, Seq::<char>::empty()) =~= c20);
    }
    let c21 = seq![(Seq::<char>::empty(), p), (Seq::<char>::empty(), "• "@ + t), (Seq::<char>::empty(), "\n"@ + q)];
    assert(replace_all(join(c20), "<div>"@, Seq::<char>::empty() + Seq::<char>::empty()) == join(c21) && chunks_valid(c21)) by {
        lemma_stage(c20, "<div>"@, Seq::<char>::empty(), Seq::<char>::empty());
        assert(stage_map(c20, "<div>"@, Seq::<char>::empty(), Seq::<char>::empty()) =~= c21);
    }
    let c22 = seq![(Seq::<char>::empty(), p), (Seq::<char>::empty(), "• "@ + t), (Seq::<char>::empty(), "\n"@ + q)];
    assert(replace_all(join(c21), "</div>"@, Seq::<char>::empty() + "\n"@) == join(c22) && chunks_valid(c22)) by {
        lemma_stage(c21, "</div>"@, Seq::<char>::empty(), "\n"@);
        assert(stage_map(c21, "</div>"@, Seq::<char>::empty(), "\n"@) =~= c22);
    }
    let c23 = seq![(Seq::<char>::empty(), p), (Seq::<char>::empty(), "• "@ + t), (Seq::<char>::empty(), "\n"@ + q)];
    assert(replace_all(join(c22), "<span>"@, Seq::<char>::empty() + Seq::<char>::empty()) == join(c23) && chunks_valid(c23)) by {
        lemma_stage(c22, "<span>"@, Seq::<char>::empty(), Seq::<char>::empty());
        assert(stage_map(c22, "<span>"@, Seq::<char>::empty(), Seq::<char>::empty()) =~= c23);
    }
    let c24 = seq![(Seq::<char>::empty(), p), (Seq::<char>::empty(), "• "@ + t), (Seq::<char>::empty(), "\n"@ + q)];
    assert(replace_all(join(c23), "</span>"@, Seq::<char>::empty() + Seq::<char>::empty()) == join(c24) && chunks_valid(c24)) by {
        lemma_stage(c23, "</span>"@, Seq::<char>::empty(), Seq::<char>::empty());
        assert(stage_map(c23, "</span>"@, Seq::<char>::empty(), Seq::<char>::empty()) =~= c24);
    }
    lemma_join3((Seq::<char>::empty(), p), (Seq::<char>::empty(), "• "@ + t), (Seq::<char>::empty(), "\n"@ + q));
    let fin = join(c24);
    assert(sanitized(p + "<li>"@ + t + "</li>"@ + q) == trim(replace_all(fin, "\n\n\n"@, "\n\n"@)));
    assert(fin =~= p + "• "@ + t + "\n"@ + q);
    assert(no_nl(p + "• "@ + t + ""@));
    assert(fin =~= p + "• "@ + t + ""@ + "\n"@ + q);
    lemma_no_triple_break(p + "• "@ + t + ""@, q, "\n\n"@);
    assert(fin[0] == p[0]);
    assert(fin.last() == q.last());
    lemma_trim_of_trimmed(fin);
}

/// A first-level heading becomes bold text followed by a line break.
#[verifier::spinoff_prover]
#[verifier::rlimit(100)]
pub proof fn lemma_h1_rendered(p: Seq<char>, t: Seq<char>, q: Seq<char>)
    requires
        p.len() == 0 || plain_edge(p),
        plain(t),
        plain_edge(q),
    ensures
        sanitized(p + "<h1>"@ + t + "</h1>"@ + q) == p + "<b>"@ + t + "</b>\n"@ + q,
{
    lemma_tag_literals();
    lemma_plain_free(p);
    lemma_plain_free(t);
    lemma_plain_free(q);
    let c0 = seq![(Seq::<char>::empty(), p), ("<h1>"@, t), ("</h1>"@, q)];
    assert(chunks_valid(c0));
    lemma_join3((Seq::<char>::empty(), p), ("<h1>"@, t), ("</h1>"@, q));
    assert(join(c0) =~= p + "<h1>"@ + t + "</h1>"@ + q);
    lemma_join_no_star(c0);
    lemma_no_star_bold(join(c0));
    let c1 = seq![(Seq::<char>::empty(), p), ("<h1>"@, t), ("</h1>"@, q)];
    assert(replace_all(join(c0), "<ul>"@, Seq::<char>::empty() + Seq::<char>::empty()) == join(c1) && chunks_valid(c1)) by {
        lemma_stage(c0, "<ul>"@, Seq::<char>::empty(), Seq::<char>::empty());
        assert(stage_map(c0, "<ul>"@, Seq::<char>::empty(), Seq::<char>::empty()) =~= c1);
    }
    let c2 = seq![(Seq::<char>::empty(), p), ("<h1>"@, t), ("</h1>"@, q)];
    assert(replace_all(join(c1), "</ul>"@, Seq::<char>::empty() + "\n"@) == join(c2) && chunks_valid(c2)) by {
        lemma_stage(c1, "</ul>"@, Seq::<char>::empty(), "\n"@);
        assert(stage_map(c1, "</ul>"@, Seq::<char>::empty(), "\n"@) =~= c2);
    }
    let c3 = seq![(Seq::<char>::empty(), p), ("<h1>"@, t), ("</h1>"@, q)];
    assert(replace_all(join(c2), "<ol>"@, Seq::<char>::empty() + Seq::<char>::empty()) == join(c3) && chunks_valid(c3)) by {
        lemma_stage(c2, "<ol>"@, Seq::<char>::empty(), Seq::<char>::empty());
        assert(stage_map(c2, "<ol>"@, Seq::<char>::empty(), Seq::<char>::empty()) =~= c3);
    }
    let c4 = seq![(Seq::<char>::empty(), p), ("<h1>"@, t), ("</h1>"@, q)];
    assert(replace_all(join(c3), "</ol>"@, Seq::<char>::empty() + "\n"@) == join(c4) && chunks_valid(c4)) by {
        lemma_stage(c3, "</ol>"@, Seq::<char>::empty(), "\n"@);
        assert(stage_map(c3, "</ol>"@, Seq::<char>::empty(), "\n"@) =~= c4);
    }
    let c5 = seq![(Seq::<char>::empty(), p), ("<h1>"@, t), ("</h1>"@, q)];
    assert(replace_all(join(c4), "<li>"@, Seq::<char>::empty() + "• "@) == join(c5) && chunks_valid(c5)) by {
        lemma_stage(c4, "<li>"@, Seq::<char>::empty(), "• "@);
        assert(stage_map(c4, "<li>"@, Seq::<char>::empty(), "• "@) =~= c5);
    }
    let c6 = seq![(Seq::<char>::empty(), p), ("<h1>"@, t), ("</h1>"@, q)];
    assert(replace_all(join(c5), "</li>"@, Seq::<char>::empty() + "\n"@) == join(c6) && chunks_valid(c6)) by {
        lemma_stage(c5, "</li>"@, Seq::<char>::empty(), "\n"@);
        assert(stage_map(c5, "</li>"@, Seq::<char>::empty(), "\n"@) =~= c6);
    }
    let c7 = seq![(Seq::<char>::empty(), p), ("<b>"@, t), ("</h1>"@, q)];
    assert(replace_all(join(c6), "<h1>"@, "<b>"@ + Seq::<char>::empty()) == join(c7) && chunks_valid(c7)) by {
        lemma_stage(c6, "<h1>"@, "<b>"@, Seq::<char>::empty());
        assert(stage_map(c6, "<h1>"@, "<b>"@, Seq::<char>::empty()) =~= c7);
    }
    let c8 = seq![(Seq::<char>::empty(), p), ("<b>"@, t), ("</b>"@, "\n"@ + q)];
    assert(replace_all(join(c7), "</h1>"@, "</b>"@ + "\n"@) == join(c8) && chunks_valid(c8)) by {
        lemma_stage(c7, "</h1>"@, "</b>"@, "\n"@);
        assert(stage_map(c7, "</h1>"@, "</b>"@, "\n"@) =~= c8);
    }
    let c9 = seq![(Seq::<char>::empty(), p), ("<b>"@, t), ("</b>"@, "\n"@ + q)];
    assert(replace_all(join(c8), "<h2>"@, "<b>"@ + Seq::<char>::empty()) == join(c9) && chunks_valid(c9)) by {
        lemma_stage(c8, "<h2>"@, "<b>"@, Seq::<char>::empty());
        assert(stage_map(c8, "<h2>"@, "<b>"@, Seq::<char>::empty()) =~= c9);
    }
    let c10 = seq![(Seq::<char>::empty(), p), ("<b>"@, t), ("</b>"@, "\n"@ + q)];
    assert(replace_all(join(c9), "</h2>"@, "</b>"@ + "\n"@) == join(c10) && chunks_valid(c10)) by {
        lemma_stage(c9, "</h2>"@, "</b>"@, "\n"@);
        assert(stage_map(c9, "</h2>"@, "</b>"@, "\n"@) =~= c10);
    }
    let c11 = seq![(Seq::<char>::empty(), p), ("<b>"@, t), ("</b>"@, "\n"@ + q)];
    assert(replace_all(join(c10), "<h3>"@, "<b>"@ + Seq::<char>::empty()) == join(c11) && chunks_valid(c11)) by {
        lemma_stage(c10, "<h3>"@, "<b>"@, Seq::<char>::empty());
        assert(stage_map(c10, "<h3>"@, "<b>"@, Seq::<char>::empty()) =~= c11);
    }
    let c12 = seq![(Seq::<char>::empty(), p), ("<b>"@, t), ("</b>"@, "\n"@ + q)];
    assert(replace_all(join(c11), "</h3>"@, "</b>"@ + "\n"@) == join(c12) && chunks_valid(c12)) by {
        lemma_stage(c11, "</h3>"@, "</b>"@, "\n"@);
        assert(stage_map(c11, "</h3>"@, "</b>"@, "\n"@) =~= c12);
    }
    let c13 = seq![(Seq::<char>::empty(), p), ("<b>"@, t), ("</b>"@, "\n"@ + q)];
    assert(replace_all(join(c12), "<p>"@, Seq::<char>::empty() + Seq::<char>::empty()) == join(c13) && chunks_valid(c13)) by {
        lemma_stage(c12, "<p>"@, Seq::<char>::empty(), Seq::<char>::empty());
        assert(stage_map(c12, "<p>"@, Seq::<char>::empty(), Seq::<char>::empty()) =~= c13);
    }
    let c14 = seq![(Seq::<char>::empty(), p), ("<b>"@, t), ("</b>"@, "\n"@ + q)];
    assert(replace_all(join(c13), "</p>"@, Seq::<char>::empty() + "\n"@) == join(c14) && chunks_valid(c14)) by {
        lemma_stage(c13, "</p>"@, Seq::<char>::empty(), "\n"@);
        assert(stage_map(c13, "</p>"@, Seq::<char>::empty(), "\n"@) =~= c14);
    }
    let c15 = seq![(Seq::<char>::empty(), p), ("<b>"@, t), ("</b>"@, "\n"@ + q)];
    assert(replace_all(join(c14), "<br>"@, Seq::<char>::empty() + "\n"@) == join(c15) && chunks_valid(c15)) by {
        lemma_stage(c14, "<br>"@, Seq::<char>::empty(), "\n"@);
        assert(stage_map(c14, "<br>"@, Seq::<char>::empty(), "\n"@) =~= c15);
    }
    let c16 = seq![(Seq::<char>::empty(), p), ("<b>"@, t), ("</b>"@, "\n"@ + q)];
    assert(replace_all(join(c15), "<br/>"@, Seq::<char>::empty() + "\n"@) == join(c16) && chunks_valid(c16)) by {
        lemma_stage(c15, "<br/>"@, Seq::<char>::empty(), "\n"@);
        assert(stage_map(c15, "<br/>"@, Seq::<char>::empty(), "\n"@) =~= c16);
    }
    let c17 = seq![(Seq::<char>::empty(), p), ("<b>"@, t), ("</b>"@, "\n"@ + q)];
    assert(replace_all(join(c16), "<strong>"@, "<b>"@ + Seq::<char>::empty()) == join(c17) && chunks_valid(c17)) by {
        lemma_stage(c16, "<strong>"@, "<b>"@, Seq::<char>::empty());
        assert(stage_map(c16, "<strong>"@, "<b>"@, Seq::<char>::empty()) =~= c17);
    }
    let c18 = seq![(Seq::<char>::empty(), p), ("<b>"@, t), ("</b>"@, "\n"@ + q)];
    assert(replace_all(join(c17), "</strong>"@, "</b>"@ + Seq::<char>::empty()) == join(c18) && chunks_valid(c18)) by {
        lemma_stage(c17, "</strong>"@, "</b>"@, Seq::<char>::empty());
        assert(stage_map(c17, "</strong>"@, "</b>"@, Seq::<char>::empty()) =~= c18);
    }
    let c19 = seq![(Seq::<char>::empty(), p), ("<b>"@, t), ("</b>"@, "\n"@ + q)];
    assert(replace_all(join(c18), "<em>"@, "<i>"@ + Seq::<char>::empty()) == join(c19) && chunks_valid(c19)) by {
        lemma_stage(c18, "<em>"@, "<i>"@, Seq::<char>::empty());
        assert(stage_map(c18, "<em>"@, "<i>"@, Seq::<char>::empty()) =~= c19);
    }
    let c20 = seq![(Seq::<char>::empty(), p), ("<b>"@, t), ("</b>"@, "\n"@ + q)];
    assert(replace_all(join(c19), "</em>"@, "</i>"@ + Seq::<char>::empty()) == join(c20) && chunks_valid(c20)) by {
        lemma_stage(c19, "</em>"@, "</i>"@, Seq::<char>::empty());
        assert(stage_map(c19, "</em>"@, "</i>"@, Seq::<char>::empty()) =~= c20);
    }
    let c21 = seq![(Seq::<char>::empty(), p), ("<b>"@, t), ("</b>"@, "\n"@ + q)];
    assert(replace_all(join(c20), "<div>"@, Seq::<char>::empty() + Seq::<char>::empty()) == join(c21) && chunks_valid(c21)) by {
        lemma_stage(c20, "<div>"@, Seq::<char>::empty(), Seq::<char>::empty());
        assert(stage_map(c20, "<div>"@, Seq::<char>::empty(), Seq::<char>::empty()) =~= c21);
    }
    let c22 = seq![(Seq::<char>::empty(), p), ("<b>"@, t), ("</b>"@, "\n"@ + q)];
    assert(replace_all(join(c21), "</div>"@, Seq::<char>::empty() + "\n"@) == join(c22) && chunks_valid(c22)) by {
        lemma_stage(c21, "</div>"@, Seq::<char>::empty(), "\n"@);
        assert(stage_map(c21, "</div>"@, Seq::<char>::empty(), "\n"@) =~= c22);
    }
    let c23 = seq![(Seq::<char>::empty(), p), ("<b>"@, t), ("</b>"@, "\n"@ + q)];
    assert(replace_all(join(c22), "<span>"@, Seq::<char>::empty() + Seq::<char>::empty()) == join(c23) && chunks_valid(c23)) by {
        lemma_stage(c22, "<span>"@, Seq::<char>::empty(), Seq::<char>::empty());
        assert(stage_map(c22, "<span>"@, Seq::<char>::empty(), Seq::<char>::empty()) =~= c23);
    }
    let c24 = seq![(Seq::<char>::empty(), p), ("<b>"@, t), ("</b>"@, "\n"@ + q)];
    assert(replace_all(join(c23), "</span>"@, Seq::<char>::empty() + Seq::<char>::empty()) == join(c24) && chunks_valid(c24)) by {
        lemma_stage(c23, "</span>"@, Seq::<char>::empty(), Seq::<char>::empty());
        assert(stage_map(c23, "</span>"@, Seq::<char>::empty(), Seq::<char>::empty()) =~= c24);
    }
    lemma_join3((Seq::<char>::empty(), p), ("<b>"@, t), ("</b>"@, "\n"@ + q));
    let fin = join(c24);
    assert(sanitized(p + "<h1>"@ + t + "</h1>"@ + q) == trim(replace_all(fin, "\n\n\n"@, "\n\n"@)));
    assert(fin =~= p + "<b>"@ + t + "</b>\n"@ + q);
    assert(no_nl(p + "<b>"@ + t + "</b>"@));
    assert(fin =~= p + "<b>"@ + t + "</b>"@ + "\n"@ + q);
    lemma_no_triple_break(p + "<b>"@ + t + "</b>"@, q, "\n\n"@);
    if p.len() > 0 {
        assert(fin[0] == p[0]);
    } else {
        assert(fin[0] == "<b>"@[0]);
    }
    assert(fin.last() == q.last());
    lemma_trim_of_trimmed(fin);
}

/// A second-level heading becomes bold text followed by a line break.
#[verifier::spinoff_prover]
#[verifier::rlimit(100)]
pub proof fn lemma_h2_rendered(p: Seq<char>, t: Seq<char>, q: Seq<char>)
    requires
        p.len() == 0 || plain_edge(p),
        plain(t),
        plain_edge(q),
    ensures
        sanitized(p + "<h2>"@ + t + "</h2>"@ + q) == p + "<b>"@ + t + "</b>\n"@ + q,
{
    lemma_tag_literals();
    lemma_plain_free(p);
    lemma_plain_free(t);
    lemma_plain_free(q);
    let c0 = seq![(Seq::<char>::empty(), p), ("<h2>"@, t), ("</h2>"@, q)];
    assert(chunks_valid(c0));
    lemma_join3((Seq::<char>::empty(), p), ("<h2>"@, t), ("</h2>"@, q));
    assert(join(c0) =~= p + "<h2>"@ + t + "</h2>"@ + q);
    lemma_join_no_star(c0);
    lemma_no_star_bold(join(c0));
    let c1 = seq![(Seq::<char>::empty(), p), ("<h2>"@, t), ("</h2>"@, q)];
    assert(replace_all(join(c0), "<ul>"@, Seq::<char>::empty() + Seq::<char>::empty()) == join(c1) && chunks_valid(c1)) by {
        lemma_stage(c0, "<ul>"@, Seq::<char>::empty(), Seq::<char>::empty());
        assert(stage_map(c0, "<ul>"@, Seq::<char>::empty(), Seq::<char>::empty()) =~= c1);
    }
    let c2 = seq![(Seq::<char>::empty(), p), ("<h2>"@, t), ("</h2>"@, q)];
    assert(replace_all(join(c1), "</ul>"@, Seq::<char>::empty() + "\n"@) == join(c2) && chunks_valid(c2)) by {
        lemma_stage(c1, "</ul>"@, Seq::<char>::empty(), "\n"@);
        assert(stage_map(c1, "</ul>"@, Seq::<char>::empty(), "\n"@) =~= c2);
    }
    let c3 = seq![(Seq::<char>::empty(), p), ("<h2>"@, t), ("</h2>"@, q)];
    assert(replace_all(join(c2), "<ol>"@, Seq::<char>::empty() + Seq::<char>::empty()) == join(c3) && chunks_valid(c3)) by {
        lemma_stage(c2, "<ol>"@, Seq::<char>::empty(), Seq::<char>::empty());
        assert(stage_map(c2, "<ol>"@, Seq::<char>::empty(), Seq::<char>::empty()) =~= c3);
    }
    let c4 = seq![(Seq::<char>::empty(), p), ("<h2>"@, t), ("</h2>"@, q)];
    assert(replace_all(join(c3), "</ol>"@, Seq::<char>::empty() + "\n"@) == join(c4) && chunks_valid(c4)) by {
        lemma_stage(c3, "</ol>"@, Seq::<char>::empty(), "\n"@);
        assert(stage_map(c3, "</ol>"@, Seq::<char>::empty(), "\n"@) =~= c4);
    }
    let c5 = seq![(Seq::<char>::empty(), p), ("<h2>"@, t), ("</h2>"@, q)];
    assert(replace_all(join(c4), "<li>"@, Seq::<char>::empty() + "• "@) == join(c5) && chunks_valid(c5)) by {
        lemma_stage(c4, "<li>"@, Seq::<char>::empty(), "• "@);
        assert(stage_map(c4, "<li>"@, Seq::<char>::empty(), "• "@) =~= c5);
    }
    let c6 = seq![(Seq::<char>::empty(), p), ("<h2>"@, t), ("</h2>"@, q)];
    assert(replace_all(join(c5), "</li>"@, Seq::<char>::empty() + "\n"@) == join(c6) && chunks_valid(c6)) by {
        lemma_stage(c5, "</li>"@, Seq::<char>::empty(), "\n"@);
        assert(stage_map(c5, "</li>"@, Seq::<char>::empty(), "\n"@) =~= c6);
    }
    let c7 = seq![(Seq::<char>::empty(), p), ("<h2>"@, t), ("</h2>"@, q)];
    assert(replace_all(join(c6), "<h1>"@, "<b>"@ + Seq::<char>::empty()) == join(c7) && chunks_valid(c7)) by {
        lemma_stage(c6, "<h1>"@, "<b>"@, Seq::<char>::empty());
        assert(stage_map(c6, "<h1>"@, "<b>"@, Seq::<char>::empty()) =~= c7);
    }
    let c8 = seq![(Seq::<char>::empty(), p), ("<h2>"@, t), ("</h2>"@, q)];
    assert(replace_all(join(c7), "</h1>"@, "</b>"@ + "\n"@) == join(c8) && chunks_valid(c8)) by {
        lemma_stage(c7, "</h1>"@, "</b>"@, "\n"@);
        assert(stage_map(c7, "</h1>"@, "</b>"@, "\n"@) =~= c8);
    }
    let c9 = seq![(Seq::<char>::empty(), p), ("<b>"@, t), ("</h2>"@, q)];
    assert(replace_all(join(c8), "<h2>"@, "<b>"@ + Seq::<char>::empty()) == join(c9) && chunks_valid(c9)) by {
        lemma_stage(c8, "<h2>"@, "<b>"@, Seq::<char>::empty());
        assert(stage_map(c8, "<h2>"@, "<b>"@, Seq::<char>::empty()) =~= c9);
    }
    let c10 = seq![(Seq::<char>::empty(), p), ("<b>"@, t), ("</b>"@, "\n"@ + q)];
    assert(replace_all(join(c9), "</h2>"@, "</b>"@ + "\n"@) == join(c10) && chunks_valid(c10)) by {
        lemma_stage(c9, "</h2>"@, "</b>"@, "\n"@);
        assert(stage_map(c9, "</h2>"@, "</b>"@, "\n"@) =~= c10);
    }
    let c11 = seq![(Seq::<char>::empty(), p), ("<b>"@, t), ("</b>"@, "\n"@ + q)];
    assert(replace_all(join(c10), "<h3>"@, "<b>"@ + Seq::<char>::empty()) == join(c11) && chunks_valid(c11)) by {
        lemma_stage(c10, "<h3>"@, "<b>"@, Seq::<char>::empty());
        assert(stage_map(c10, "<h3>"@, "<b>"@, Seq::<char>::empty()) =~= c11);
    }
    let c12 = seq![(Seq::<char>::empty(), p), ("<b>"@, t), ("</b>"@, "\n"@ + q)];
    assert(replace_all(join(c11), "</h3>"@, "</b>"@ + "\n"@) == join(c12) && chunks_valid(c12)) by {
        lemma_stage(c11, "</h3>"@, "</b>"@, "\n"@);
        assert(stage_map(c11, "</h3>"@, "</b>"@, "\n"@) =~= c12);
    }
    let c13 = seq![(Seq::<char>::empty(), p), ("<b>"@, t), ("</b>"@, "\n"@ + q)];
    assert(replace_all(join(c12), "<p>"@, Seq::<char>::empty() + Seq::<char>::empty()) == join(c13) && chunks_valid(c13)) by {
        lemma_stage(c12, "<p>"@, Seq::<char>::empty(), Seq::<char>::empty());
        assert(stage_map(c12, "<p>"@, Seq::<char>::empty(), Seq::<char>::empty()) =~= c13);
    }
    let c14 = seq![(Seq::<char>::empty(), p), ("<b>"@, t), ("</b>"@, "\n"@ + q)];
    assert(replace_all(join(c13), "</p>"@, Seq::<char>::empty() + "\n"@) == join(c14) && chunks_valid(c14)) by {
        lemma_stage(c13, "</p>"@, Seq::<char>::empty(), "\n"@);
        assert(stage_map(c13, "</p>"@, Seq::<char>::empty(), "\n"@) =~= c14);
    }
    let c15 = seq![(Seq::<char>::empty(), p), ("<b>"@, t), ("</b>"@, "\n"@ + q)];
    assert(replace_all(join(c14), "<br>"@, Seq::<char>::empty() + "\n"@) == join(c15) && chunks_valid(c15)) by {
        lemma_stage(c14, "<br>"@, Seq::<char>::empty(), "\n"@);
        assert(stage_map(c14, "<br>"@, Seq::<char>::empty(), "\n"@) =~= c15);
    }
    let c16 = seq![(Seq::<char>::empty(), p), ("<b>"@, t), ("</b>"@, "\n"@ + q)];
    assert(replace_all(join(c15), "<br/>"@, Seq::<char>::empty() + "\n"@) == join(c16) && chunks_valid(c16)) by {
        lemma_stage(c15, "<br/>"@, Seq::<char>::empty(), "\n"@);
        assert(stage_map(c15, "<br/>"@, Seq::<char>::empty(), "\n"@) =~= c16);
    }
    let c17 = seq![(Seq::<char>::empty(), p), ("<b>"@, t), ("</b>"@, "\n"@ + q)];
    assert(replace_all(join(c16), "<strong>"@, "<b>"@ + Seq::<char>::empty()) == join(c17) && chunks_valid(c17)) by {
        lemma_stage(c16, "<strong>"@, "<b>"@, Seq::<char>::empty());
        assert(stage_map(c16, "<strong>"@, "<b>"@, Seq::<char>::empty()) =~= c17);
    }
    let c18 = seq![(Seq::<char>::empty(), p), ("<b>"@, t), ("</b>"@, "\n"@ + q)];
    assert(replace_all(join(c17), "</strong>"@, "</b>"@ + Seq::<char>::empty()) == join(c18) && chunks_valid(c18)) by {
        lemma_stage(c17, "</strong>"@, "</b>"@, Seq::<char>::empty());
        assert(stage_map(c17, "</strong>"@, "</b>"@, Seq::<char>::empty()) =~= c18);
    }
    let c19 = seq![(Seq::<char>::empty(), p), ("<b>"@, t), ("</b>"@, "\n"@ + q)];
    assert(replace_all(join(c18), "<em>"@, "<i>"@ + Seq::<char>::empty()) == join(c19) && chunks_valid(c19)) by {
        lemma_stage(c18, "<em>"@, "<i>"@, Seq::<char>::empty());
        assert(stage_map(c18, "<em>"@, "<i>"@, Seq::<char>::empty()) =~= c19);
    }
    let c20 = seq![(Seq::<char>::empty(), p), ("<b>"@, t), ("</b>"@, "\n"@ + q)];
    assert(replace_all(join(c19), "</em>"@, "</i>"@ + Seq::<char>::empty()) == join(c20) && chunks_valid(c20)) by {
        lemma_stage(c19, "</em>"@, "</i>"@, Seq::<char>::empty());
        assert(stage_map(c19, "</em>"@, "</i>"@, Seq::<char>::empty()) =~= c20);
    }
    let c21 = seq![(Seq::<char>::empty(), p), ("<b>"@, t), ("</b>"@, "\n"@ + q)];
    assert(replace_all(join(c20), "<div>"@, Seq::<char>::empty() + Seq::<char>::empty()) == join(c21) && chunks_valid(c21)) by {
        lemma_stage(c20, "<div>"@, Seq::<char>::empty(), Seq::<char>::empty());
        assert(stage_map(c20, "<div>"@, Seq::<char>::empty(), Seq::<char>::empty()) =~= c21);
    }
    let c22 = seq![(Seq::<char>::empty(), p), ("<b>"@, t), ("</b>"@, "\n"@ + q)];
    assert(replace_all(join(c21), "</div>"@, Seq::<char>::empty() + "\n"@) == join(c22) && chunks_valid(c22)) by {
        lemma_stage(c21, "</div>"@, Seq::<char>::empty(), "\n"@);
        assert(stage_map(c21, "</div>"@, Seq::<char>::empty(), "\n"@) =~= c22);
    }
    let c23 = seq![(Seq::<char>::empty(), p), ("<b>"@, t), ("</b>"@, "\n"@ + q)];
    assert(replace_all(join(c22), "<span>"@, Seq::<char>::empty() + Seq::<char>::empty()) == join(c23) && chunks_valid(c23)) by {
        lemma_stage(c22, "<span>"@, Seq::<char>::empty(), Seq::<char>::empty());
        assert(stage_map(c22, "<span>"@, Seq::<char>::empty(), Seq::<char>::empty()) =~= c23);
    }
    let c24 = seq![(Seq::<char>::empty(), p), ("<b>"@, t), ("</b>"@, "\n"@ + q)];
    assert(replace_all(join(c23), "</span>"@, Seq::<char>::empty() + Seq::<char>::empty()) == join(c24) && chunks_valid(c24)) by {
        lemma_stage(c23, "</span>"@, Seq::<char>::empty(), Seq::<char>::empty());
        assert(stage_map(c23, "</span>"@, Seq::<char>::empty(), Seq::<char>::empty()) =~= c24);
    }
    lemma_join3((Seq::<char>::empty(), p), ("<b>"@, t), ("</b>"@, "\n"@ + q));
    let fin = join(c24);
    assert(sanitized(p + "<h2>"@ + t + "</h2>"@ + q) == trim(replace_all(fin, "\n\n\n"@, "\n\n"@)));
    assert(fin =~= p + "<b>"@ + t + "</b>\n"@ + q);
    assert(no_nl(p + "<b>"@ + t + "</b>"@));
    assert(fin =~= p + "<b>"@ + t + "</b>"@ + "\n"@ + q);
    lemma_no_triple_break(p + "<b>"@ + t + "</b>"@, q, "\n\n"@);
    if p.len() > 0 {
        assert(fin[0] == p[0]);
    } else {
        assert(fin[0] == "<b>"@[0]);
    }
    assert(fin.last() == q.last());
    lemma_trim_of_trimmed(fin);
}

/// A third-level heading becomes bold text followed by a line break: `<h3>T</h3>P`
/// becomes `<b>T</b>`, a line break and `P`, whether or not plain text stands
/// before the heading; no `<h3>` or `</h3>` is left.
#[verifier::spinoff_prover]
#[verifier::rlimit(100)]
pub proof fn lemma_h3_rendered(p: Seq<char>, t: Seq<char>, q: Seq<char>)
    requires
        p.len() == 0 || plain_edge(p),
        plain(t),
        plain_edge(q),
    ensures
        sanitized(p + "<h3>"@ + t + "</h3>"@ + q) == p + "<b>"@ + t + "</b>\n"@ + q,
{
    lemma_tag_literals();
    lemma_plain_free(p);
    lemma_plain_free(t);
    lemma_plain_free(q);
    let c0 = seq![(Seq::<char>::empty(), p), ("<h3>"@, t), ("</h3>"@, q)];
    assert(chunks_valid(c0));
    lemma_join3((Seq::<char>::empty(), p), ("<h3>"@, t), ("</h3>"@, q));
    assert(join(c0) =~= p + "<h3>"@ + t + "</h3>"@ + q);
    lemma_join_no_star(c0);
    lemma_no_star_bold(join(c0));
    let c1 = seq![(Seq::<char>::empty(), p), ("<h3>"@, t), ("</h3>"@, q)];
    assert(replace_all(join(c0), "<ul>"@, Seq::<char>::empty() + Seq::<char>::empty()) == join(c1) && chunks_valid(c1)) by {
        lemma_stage(c0, "<ul>"@, Seq::<char>::empty(), Seq::<char>::empty());
        assert(stage_map(c0, "<ul>"@, Seq::<char>::empty(), Seq::<char>::empty()) =~= c1);
    }
    let c2 = seq![(Seq::<char>::empty(), p), ("<h3>"@, t), ("</h3>"@, q)];
    assert(replace_all(join(c1), "</ul>"@, Seq::<char>::empty() + "\n"@) == join(c2) && chunks_valid(c2)) by {
        lemma_stage(c1, "</ul>"@, Seq::<char>::empty(), "\n"@);
        assert(stage_map(c1, "</ul>"@, Seq::<char>::empty(), "\n"@) =~= c2);
    }
    let c3 = seq![(Seq::<char>::empty(), p), ("<h3>"@, t), ("</h3>"@, q)];
    assert(replace_all(join(c2), "<ol>"@, Seq::<char>::empty() + Seq::<char>::empty()) == join(c3) && chunks_valid(c3)) by {
        lemma_stage(c2, "<ol>"@, Seq::<char>::empty(), Seq::<char>::empty());
        assert(stage_map(c2, "<ol>"@, Seq::<char>::empty(), Seq::<char>::empty()) =~= c3);
    }
    let c4 = seq![(Seq::<char>::empty(), p), ("<h3>"@, t), ("</h3>"@, q)];
    assert(replace_all(join(c3), "</ol>"@, Seq::<char>::empty() + "\n"@) == join(c4) && chunks_valid(c4)) by {
        lemma_stage(c3, "</ol>"@, Seq::<char>::empty(), "\n"@);
        assert(stage_map(c3, "</ol>"@, Seq::<char>::empty(), "\n"@) =~= c4);
    }
    let c5 = seq![(Seq::<char>::empty(), p), ("<h3>"@, t), ("</h3>"@, q)];
    assert(replace_all(join(c4), "<li>"@, Seq::<char>::empty() + "• "@) == join(c5) && chunks_valid(c5)) by {
        lemma_stage(c4, "<li>"@, Seq::<char>::empty(), "• "@);
        assert(stage_map(c4, "<li>"@, Seq::<char>::empty(), "• "@) =~= c5);
    }
    let c6 = seq![(Seq::<char>::empty(), p), ("<h3>"@, t), ("</h3>"@, q)];
    assert(replace_all(join(c5), "</li>"@, Seq::<char>::empty() + "\n"@) == join(c6) && chunks_valid(c6)) by {
        lemma_stage(c5, "</li>"@, Seq::<char>::empty(), "\n"@);
        assert(stage_map(c5, "</li>"@, Seq::<char>::empty(), "\n"@) =~= c6);
    }
    let c7 = seq![(Seq::<char>::empty(), p), ("<h3>"@, t), ("</h3>"@, q)];
    assert(replace_all(join(c6), "<h1>"@, "<b>"@ + Seq::<char>::empty()) == join(c7) && chunks_valid(c7)) by {
        lemma_stage(c6, "<h1>"@, "<b>"@, Seq::<char>::empty());
        assert(stage_map(c6, "<h1>"@, "<b>"@, Seq::<char>::empty()) =~= c7);
    }
    let c8 = seq![(Seq::<char>::empty(), p), ("<h3>"@, t), ("</h3>"@, q)];
    assert(replace_all(join(c7), "</h1>"@, "</b>"@ + "\n"@) == join(c8) && chunks_valid(c8)) by {
        lemma_stage(c7, "</h1>"@, "</b>"@, "\n"@);
        assert(stage_map(c7, "</h1>"@, "</b>"@, "\n"@) =~= c8);
    }
    let c9 = seq![(Seq::<char>::empty(), p), ("<h3>"@, t), ("</h3>"@, q)];
    assert(replace_all(join(c8), "<h2>"@, "<b>"@ + Seq::<char>::empty()) == join(c9) && chunks_valid(c9)) by {
        lemma_stage(c8, "<h2>"@, "<b>"@, Seq::<char>::empty());
        assert(stage_map(c8, "<h2>"@, "<b>"@, Seq::<char>::empty()) =~= c9);
    }
    let c10 = seq![(Seq::<char>::empty(), p), ("<h3>"@, t), ("</h3>"@, q)];
    assert(replace_all(join(c9), "</h2>"@, "</b>"@ + "\n"@) == join(c10) && chunks_valid(c10)) by {
        lemma_stage(c9, "</h2>"@, "</b>"@, "\n"@);
        assert(stage_map(c9, "</h2>"@, "</b>"@, "\n"@) =~= c10);
    }
    let c11 = seq![(Seq::<char>::empty(), p), ("<b>"@, t), ("</h3>"@, q)];
    assert(replace_all(join(c10), "<h3>"@, "<b>"@ + Seq::<char>::empty()) == join(c11) && chunks_valid(c11)) by {
        lemma_stage(c10, "<h3>"@, "<b>"@, Seq::<char>::empty());
        assert(stage_map(c10, "<h3>"@, "<b>"@, Seq::<char>::empty()) =~= c11);
    }
    let c12 = seq![(Seq::<char>::empty(), p), ("<b>"@, t), ("</b>"@, "\n"@ + q)];
    assert(replace_all(join(c11), "</h3>"@, "</b>"@ + "\n"@) == join(c12) && chunks_valid(c12)) by {
        lemma_stage(c11, "</h3>"@, "</b>"@, "\n"@);
        assert(stage_map(c11, "</h3>"@, "</b>"@, "\n"@) =~= c12);
    }
    let c13 = seq![(Seq::<char>::empty(), p), ("<b>"@, t), ("</b>"@, "\n"@ + q)];
    assert(replace_all(join(c12), "<p>"@, Seq::<char>::empty() + Seq::<char>::empty()) == join(c13) && chunks_valid(c13)) by {
        lemma_stage(c12, "<p>"@, Seq::<char>::empty(), Seq::<char>::empty());
        assert(stage_map(c12, "<p>"@, Seq::<char>::empty(), Seq::<char>::empty()) =~= c13);
    }
    let c14 = seq![(Seq::<char>::empty(), p), ("<b>"@, t), ("</b>"@, "\n"@ + q)];
    assert(replace_all(join(c13), "</p>"@, Seq::<char>::empty() + "\n"@) == join(c14) && chunks_valid(c14)) by {
        lemma_stage(c13, "</p>"@, Seq::<char>::empty(), "\n"@);
        assert(stage_map(c13, "</p>"@, Seq::<char>::empty(), "\n"@) =~= c14);
    }
    let c15 = seq![(Seq::<char>::empty(), p), ("<b>"@, t), ("</b>"@, "\n"@ + q)];
    assert(replace_all(join(c14), "<br>"@, Seq::<char>::empty() + "\n"@) == join(c15) && chunks_valid(c15)) by {
        lemma_stage(c14, "<br>"@, Seq::<char>::empty(), "\n"@);
        assert(stage_map(c14, "<br>"@, Seq::<char>::empty(), "\n"@) =~= c15);
    }
    let c16 = seq![(Seq::<char>::empty(), p), ("<b>"@, t), ("</b>"@, "\n"@ + q)];
    assert(replace_all(join(c15), "<br/>"@, Seq::<char>::empty() + "\n"@) == join(c16) && chunks_valid(c16)) by {
        lemma_stage(c15, "<br/>"@, Seq::<char>::empty(), "\n"@);
        assert(stage_map(c15, "<br/>"@, Seq::<char>::empty(), "\n"@) =~= c16);
    }
    let c17 = seq![(Seq::<char>::empty(), p), ("<b>"@, t), ("</b>"@, "\n"@ + q)];
    assert(replace_all(join(c16), "<strong>"@, "<b>"@ + Seq::<char>::empty()) == join(c17) && chunks_valid(c17)) by {
        lemma_stage(c16, "<strong>"@, "<b>"@, Seq::<char>::empty());
        assert(stage_map(c16, "<strong>"@, "<b>"@, Seq::<char>::empty()) =~= c17);
    }
    let c18 = seq![(Seq::<char>::empty(), p), ("<b>"@, t), ("</b>"@, "\n"@ + q)];
    assert(replace_all(join(c17), "</strong>"@, "</b>"@ + Seq::<char>::empty()) == join(c18) && chunks_valid(c18)) by {
        lemma_stage(c17, "</strong>"@, "</b>"@, Seq::<char>::empty());
        assert(stage_map(c17, "</strong>"@, "</b>"@, Seq::<char>::empty()) =~= c18);
    }
    let c19 = seq![(Seq::<char>::empty(), p), ("<b>"@, t), ("</b>"@, "\n"@ + q)];
    assert(replace_all(join(c18), "<em>"@, "<i>"@ + Seq::<char>::empty()) == join(c19) && chunks_valid(c19)) by {
        lemma_stage(c18, "<em>"@, "<i>"@, Seq::<char>::empty());
        assert(stage_map(c18, "<em>"@, "<i>"@, Seq::<char>::empty()) =~= c19);
    }
    let c20 = seq![(Seq::<char>::empty(), p), ("<b>"@, t), ("</b>"@, "\n"@ + q)];
    assert(replace_all(join(c19), "</em>"@, "</i>"@ + Seq::<char>::empty()) == join(c20) && chunks_valid(c20)) by {
        lemma_stage(c19, "</em>"@, "</i>"@, Seq::<char>::empty());
        assert(stage_map(c19, "</em>"@, "</i>"@, Seq::<char>::empty()) =~= c20);
    }
    let c21 = seq![(Seq::<char>::empty(), p), ("<b>"@, t), ("</b>"@, "\n"@ + q)];
    assert(replace_all(join(c20), "<div>"@, Seq::<char>::empty() + Seq::<char>::empty()) == join(c21) && chunks_valid(c21)) by {
        lemma_stage(c20, "<div>"@, Seq::<char>::empty(), Seq::<char>::empty());
        assert(stage_map(c20, "<div>"@, Seq::<char>::empty(), Seq::<char>::empty()) =~= c21);
    }
    let c22 = seq![(Seq::<char>::empty(), p), ("<b>"@, t), ("</b>"@, "\n"@ + q)];
    assert(replace_all(join(c21), "</div>"@, Seq::<char>::empty() + "\n"@) == join(c22) && chunks_valid(c22)) by {
        lemma_stage(c21, "</div>"@, Seq::<char>::empty(), "\n"@);
        assert(stage_map(c21, "</div>"@, Seq::<char>::empty(), "\n"@) =~= c22);
    }
    let c23 = seq![(Seq::<char>::empty(), p), ("<b>"@, t), ("</b>"@, "\n"@ + q)];
    assert(replace_all(join(c22), "<span>"@, Seq::<char>::empty() + Seq::<char>::empty()) == join(c23) && chunks_valid(c23)) by {
        lemma_stage(c22, "<span>"@, Seq::<char>::empty(), Seq::<char>::empty());
        assert(stage_map(c22, "<span>"@, Seq::<char>::empty(), Seq::<char>::empty()) =~= c23);
    }
    let c24 = seq![(Seq::<char>::empty(), p), ("<b>"@, t), ("</b>"@, "\n"@ + q)];
    assert(replace_all(join(c23), "</span>"@, Seq::<char>::empty() + Seq::<char>::empty()) == join(c24) && chunks_valid(c24)) by {
        lemma_stage(c23, "</span>"@, Seq::<char>::empty(), Seq::<char>::empty());
        assert(stage_map(c23, "</span>"@, Seq::<char>::empty(), Seq::<char>::empty()) =~= c24);
    }
    lemma_join3((Seq::<char>::empty(), p), ("<b>"@, t), ("</b>"@, "\n"@ + q));
    let fin = join(c24);
    assert(sanitized(p + "<h3>"@ + t + "</h3>"@ + q) == trim(replace_all(fin, "\n\n\n"@, "\n\n"@)));
    assert(fin =~= p + "<b>"@ + t + "</b>\n"@ + q);
    assert(no_nl(p + "<b>"@ + t + "</b>"@));
    assert(fin =~= p + "<b>"@ + t + "</b>"@ + "\n"@ + q);
    lemma_no_triple_break(p + "<b>"@ + t + "</b>"@, q, "\n\n"@);
    if p.len() > 0 {
        assert(fin[0] == p[0]);
    } else {
        assert(fin[0] == "<b>"@[0]);
    }
    assert(fin.last() == q.last());
    lemma_trim_of_trimmed(fin);
}

/// A paragraph's tags are dropped and its end becomes a line break.
#[verifier::spinoff_prover]
#[verifier::rlimit(100)]
pub proof fn lemma_p_rendered(p: Seq<char>, t: Seq<char>, q: Seq<char>)
    requires
        plain_edge(p),
        plain(t),
        plain_edge(q),
    ensures
        sanitized(p + "<p>"@ + t + "</p>"@ + q) == p + ""@ + t + "\n"@ + q,
{
    lemma_tag_literals();
    lemma_plain_free(p);
    lemma_plain_free(t);
    lemma_plain_free(q);
    let c0 = seq![(Seq::<char>::empty(), p), ("<p>"@, t), ("</p>"@, q)];
    assert(chunks_valid(c0));
    lemma_join3((Seq::<char>::empty(), p), ("<p>"@, t), ("</p>"@, q));
    assert(join(c0) =~= p + "<p>"@ + t + "</p>"@ + q);
    lemma_join_no_star(c0);
    lemma_no_star_bold(join(c0));
    let c1 = seq![(Seq::<char>::empty(), p), ("<p>"@, t), ("</p>"@, q)];
    assert(replace_all(join(c0), "<ul>"@, Seq::<char>::empty() + Seq::<char>::empty()) == join(c1) && chunks_valid(c1)) by {
        lemma_stage(c0, "<ul>"@, Seq::<char>::empty(), Seq::<char>::empty());
        assert(stage_map(c0, "<ul>"@, Seq::<char>::empty(), Seq::<char>::empty()) =~= c1);
    }
    let c2 = seq![(Seq::<char>::empty(), p), ("<p>"@, t), ("</p>"@, q)];
    assert(replace_all(join(c1), "</ul>"@, Seq::<char>::empty() + "\n"@) == join(c2) && chunks_valid(c2)) by {
        lemma_stage(c1, "</ul>"@, Seq::<char>::empty(), "\n"@);
        assert(stage_map(c1, "</ul>"@, Seq::<char>::empty(), "\n"@) =~= c2);
    }
    let c3 = seq![(Seq::<char>::empty(), p), ("<p>"@, t), ("</p>"@, q)];
    assert(replace_all(join(c2), "<ol>"@, Seq::<char>::empty() + Seq::<char>::empty()) == join(c3) && chunks_valid(c3)) by {
        lemma_stage(c2, "<ol>"@, Seq::<char>::empty(), Seq::<char>::empty());
        assert(stage_map(c2, "<ol>"@, Seq::<char>::empty(), Seq::<char>::empty()) =~= c3);
    }
    let c4 = seq![(Seq::<char>::empty(), p), ("<p>"@, t), ("</p>"@, q)];
    assert(replace_all(join(c3), "</ol>"@, Seq::<char>::empty() + "\n"@) == join(c4) && chunks_valid(c4)) by {
        lemma_stage(c3, "</ol>"@, Seq::<char>::empty(), "\n"@);
        assert(stage_map(c3, "</ol>"@, Seq::<char>::empty(), "\n"@) =~= c4);
    }
    let c5 = seq![(Seq::<char>::empty(), p), ("<p>"@, t), ("</p>"@, q)];
    assert(replace_all(join(c4), "<li>"@, Seq::<char>::empty() + "• "@) == join(c5) && chunks_valid(c5)) by {
        lemma_stage(c4, "<li>"@, Seq::<char>::empty(), "• "@);
        assert(stage_map(c4, "<li>"@, Seq::<char>::empty(), "• "@) =~= c5);
    }
    let c6 = seq![(Seq::<char>::empty(), p), ("<p>"@, t), ("</p>"@, q)];
    assert(replace_all(join(c5), "</li>"@, Seq::<char>::empty() + "\n"@) == join(c6) && chunks_valid(c6)) by {
        lemma_stage(c5, "</li>"@, Seq::<char>::empty(), "\n"@);
        assert(stage_map(c5, "</li>"@, Seq::<char>::empty(), "\n"@) =~= c6);
    }
    let c7 = seq![(Seq::<char>::empty(), p), ("<p>"@, t), ("</p>"@, q)];
    assert(replace_all(join(c6), "<h1>"@, "<b>"@ + Seq::<char>::empty()) == join(c7) && chunks_valid(c7)) by {
        lemma_stage(c6, "<h1>"@, "<b>"@, Seq::<char>::empty());
        assert(stage_map(c6, "<h1>"@, "<b>"@, Seq::<char>::empty()) =~= c7);
    }
    let c8 = seq![(Seq::<char>::empty(), p), ("<p>"@, t), ("</p>"@, q)];
    assert(replace_all(join(c7), "</h1>"@, "</b>"@ + "\n"@) == join(c8) && chunks_valid(c8)) by {
        lemma_stage(c7, "</h1>"@, "</b>"@, "\n"@);
        assert(stage_map(c7, "</h1>"@, "</b>"@, "\n"@) =~= c8);
    }
    let c9 = seq![(Seq::<char>::empty(), p), ("<p>"@, t), ("</p>"@, q)];
    assert(replace_all(join(c8), "<h2>"@, "<b>"@ + Seq::<char>::empty()) == join(c9) && chunks_valid(c9)) by {
        lemma_stage(c8, "<h2>"@, "<b>"@, Seq::<char>::empty());
        assert(stage_map(c8, "<h2>"@, "<b>"@, Seq::<char>::empty()) =~= c9);
    }
    let c10 = seq![(Seq::<char>::empty(), p), ("<p>"@, t), ("</p>"@, q)];
    assert(replace_all(join(c9), "</h2>"@, "</b>"@ + "\n"@) == join(c10) && chunks_valid(c10)) by {
        lemma_stage(c9, "</h2>"@, "</b>"@, "\n"@);
        assert(stage_map(c9, "</h2>"@, "</b>"@, "\n"@) =~= c10);
    }
    let c11 = seq![(Seq::<char>::empty(), p), ("<p>"@, t), ("</p>"@, q)];
    assert(replace_all(join(c10), "<h3>"@, "<b>"@ + Seq::<char>::empty()) == join(c11) && chunks_valid(c11)) by {
        lemma_stage(c10, "<h3>"@, "<b>"@, Seq::<char>::empty());
        assert(stage_map(c10, "<h3>"@, "<b>"@, Seq::<char>::empty()) =~= c11);
    }
    let c12 = seq![(Seq::<char>::empty(), p), ("<p>"@, t), ("</p>"@, q)];
    assert(replace_all(join(c11), "</h3>"@, "</b>"@ + "\n"@) == join(c12) && chunks_valid(c12)) by {
        lemma_stage(c11, "</h3>"@, "</b>"@, "\n"@);
        assert(stage_map(c11, "</h3>"@, "</b>"@, "\n"@) =~= c12);
    }
    let c13 = seq![(Seq::<char>::empty(), p), (Seq::<char>::empty(), t), ("</p>"@, q)];
    assert(replace_all(join(c12), "<p>"@, Seq::<char>::empty() + Seq::<char>::empty()) == join(c13) && chunks_valid(c13)) by {
        lemma_stage(c12, "<p>"@, Seq::<char>::empty(), Seq::<char>::empty());
        assert(stage_map(c12, "<p>"@, Seq::<char>::empty(), Seq::<char>::empty()) =~= c13);
    }
    let c14 = seq![(Seq::<char>::empty(), p), (Seq::<char>::empty(), t), (Seq::<char>::empty(), "\n"@ + q)];
    assert(replace_all(join(c13), "</p>"@, Seq::<char>::empty() + "\n"@) == join(c14) && chunks_valid(c14)) by {
        lemma_stage(c13, "</p>"@, Seq::<char>::empty(), "\n"@);
        assert(stage_map(c13, "</p>"@, Seq::<char>::empty(), "\n"@) =~= c14);
    }
    let c15 = seq![(Seq::<char>::empty(), p), (Seq::<char>::empty(), t), (Seq::<char>::empty(), "\n"@ + q)];
    assert(replace_all(join(c14), "<br>"@, Seq::<char>::empty() + "\n"@) == join(c15) && chunks_valid(c15)) by {
        lemma_stage(c14, "<br>"@, Seq::<char>::empty(), "\n"@);
        assert(stage_map(c14, "<br>"@, Seq::<char>::empty(), "\n"@) =~= c15);
    }
    let c16 = seq![(Seq::<char>::empty(), p), (Seq::<char>::empty(), t), (Seq::<char>::empty(), "\n"@ + q)];
    assert(replace_all(join(c15), "<br/>"@, Seq::<char>::empty() + "\n"@) == join(c16) && chunks_valid(c16)) by {
        lemma_stage(c15, "<br/>"@, Seq::<char>::empty(), "\n"@);
        assert(stage_map(c15, "<br/>"@, Seq::<char>::empty(), "\n"@) =~= c16);
    }
    let c17 = seq![(Seq::<char>::empty(), p), (Seq::<char>::empty(), t), (Seq::<char>::empty(), "\n"@ + q)];
    assert(replace_all(join(c16), "<strong>"@, "<b>"@ + Seq::<char>::empty()) == join(c17) && chunks_valid(c17)) by {
        lemma_stage(c16, "<strong>"@, "<b>"@, Seq::<char>::empty());
        assert(stage_map(c16, "<strong>"@, "<b>"@, Seq::<char>::empty()) =~= c17);
    }
    let c18 = seq![(Seq::<char>::empty(), p), (Seq::<char>::empty(), t), (Seq::<char>::empty(), "\n"@ + q)];
    assert(replace_all(join(c17), "</strong>"@, "</b>"@ + Seq::<char>::empty()) == join(c18) && chunks_valid(c18)) by {
        lemma_stage(c17, "</strong>"@, "</b>"@, Seq::<char>::empty());
        assert(stage_map(c17, "</strong>"@, "</b>"@, Seq::<char>::empty()) =~= c18);
    }
    let c19 = seq![(Seq::<char>::empty(), p), (Seq::<char>::empty(), t), (Seq::<char>::empty(), "\n"@ + q)];
    assert(replace_all(join(c18), "<em>"@, "<i>"@ + Seq::<char>::empty()) == join(c19) && chunks_valid(c19)) by {
        lemma_stage(c18, "<em>"@, "<i>"@, Seq::<char>::empty());
        assert(stage_map(c18, "<em>"@, "<i>"@, Seq::<char>::empty()) =~= c19);
    }
    let c20 = seq![(Seq::<char>::empty(), p), (Seq::<char>::empty(), t), (Seq::<char>::empty(), "\n"@ + q)];
    assert(replace_all(join(c19), "</em>"@, "</i>"@ + Seq::<char>::empty()) == join(c20) && chunks_valid(c20)) by {
        lemma_stage(c19, "</em>"@, "</i>"@, Seq::<char>::empty());
        assert(stage_map(c19, "</em>"@, "</i>"@, Seq::<char>::empty()) =~= c20);
    }
    let c21 = seq![(Seq::<char>::empty(), p), (Seq::<char>::empty(), t), (Seq::<char>::empty(), "\n"@ + q)];
    assert(replace_all(join(c20), "<div>"@, Seq::<char>::empty() + Seq::<char>::empty()) == join(c21) && chunks_valid(c21)) by {
        lemma_stage(c20, "<div>"@, Seq::<char>::empty(), Seq::<char>::empty());
        assert(stage_map(c20, "<div>"@, Seq::<char>::empty(), Seq::<char>::empty()) =~= c21);
    }
    let c22 = seq![(Seq::<char>::empty(), p), (Seq::<char>::empty(), t), (Seq::<char>::empty(), "\n"@ + q)];
    assert(replace_all(join(c21), "</div>"@, Seq::<char>::empty() + "\n"@) == join(c22) && chunks_valid(c22)) by {
        lemma_stage(c21, "</div>"@, Seq::<char>::empty(), "\n"@);
        assert(stage_map(c21, "</div>"@, Seq::<char>::empty(), "\n"@) =~= c22);
    }
    let c23 = seq![(Seq::<char>::empty(), p), (Seq::<char>::empty(), t), (Seq::<char>::empty(), "\n"@ + q)];
    assert(replace_all(join(c22), "<span>"@, Seq::<char>::empty() + Seq::<char>::empty()) == join(c23) && chunks_valid(c23)) by {
        lemma_stage(c22, "<span>"@, Seq::<char>::empty(), Seq::<char>::empty());
        assert(stage_map(c22, "<span>"@, Seq::<char>::empty(), Seq::<char>::empty()) =~= c23);
    }
    let c24 = seq![(Seq::<char>::empty(), p), (Seq::<char>::empty(), t), (Seq::<char>::empty(), "\n"@ + q)];
    assert(replace_all(join(c23), "</span>"@, Seq::<char>::empty() + Seq::<char>::empty()) == join(c24) && chunks_valid(c24)) by {
        lemma_stage(c23, "</span>"@, Seq::<char>::empty(), Seq::<char>::empty());
        assert(stage_map(c23, "</span>"@, Seq::<char>::empty(), Seq::<char>::empty()) =~= c24);
    }
    lemma_join3((Seq::<char>::empty(), p), (Seq::<char>::empty(), t), (Seq::<char>::empty(), "\n"@ + q));
    let fin = join(c24);
    assert(sanitized(p + "<p>"@ + t + "</p>"@ + q) == trim(replace_all(fin, "\n\n\n"@, "\n\n"@)));
    assert(fin =~= p + ""@ + t + "\n"@ + q);
    assert(no_nl(p + ""@ + t + ""@));
    assert(fin =~= p + ""@ + t + ""@ + "\n"@ + q);
    lemma_no_triple_break(p + ""@ + t + ""@, q, "\n\n"@);
    assert(fin[0] == p[0]);
    assert(fin.last() == q.last());
    lemma_trim_of_trimmed(fin);
}

/// Strong text becomes bold text.
#[verifier::spinoff_prover]
#[verifier::rlimit(100)]
pub proof fn lemma_strong_rendered(p: Seq<char>, t: Seq<char>, q: Seq<char>)
    requires
        p.len() == 0 || plain_edge(p),
        plain(t),
        plain_edge(q),
    ensures
        sanitized(p + "<strong>"@ + t + "</strong>"@ + q) == p + "<b>"@ + t + "</b>"@ + q,
{
    lemma_tag_literals();
    lemma_plain_free(p);
    lemma_plain_free(t);
    lemma_plain_free(q);
    let c0 = seq![(Seq::<char>::empty(), p), ("<strong>"@, t), ("</strong>"@, q)];
    assert(chunks_valid(c0));
    lemma_join3((Seq::<char>::empty(), p), ("<strong>"@, t), ("</strong>"@, q));
    assert(join(c0) =~= p + "<strong>"@ + t + "</strong>"@ + q);
    lemma_join_no_star(c0);
    lemma_no_star_bold(join(c0));
    let c1 = seq![(Seq::<char>::empty(), p), ("<strong>"@, t), ("</strong>"@, q)];
    assert(replace_all(join(c0), "<ul>"@, Seq::<char>::empty() + Seq::<char>::empty()) == join(c1) && chunks_valid(c1)) by {
        lemma_stage(c0, "<ul>"@, Seq::<char>::empty(), Seq::<char>::empty());
        assert(stage_map(c0, "<ul>"@, Seq::<char>::empty(), Seq::<char>::empty()) =~= c1);
    }
    let c2 = seq![(Seq::<char>::empty(), p), ("<strong>"@, t), ("</strong>"@, q)];
    assert(replace_all(join(c1), "</ul>"@, Seq::<char>::empty() + "\n"@) == join(c2) && chunks_valid(c2)) by {
        lemma_stage(c1, "</ul>"@, Seq::<char>::empty(), "\n"@);
        assert(stage_map(c1, "</ul>"@, Seq::<char>::empty(), "\n"@) =~= c2);
    }
    let c3 = seq![(Seq::<char>::empty(), p), ("<strong>"@, t), ("</strong>"@, q)];
    assert(replace_all(join(c2), "<ol>"@, Seq::<char>::empty() + Seq::<char>::empty()) == join(c3) && chunks_valid(c3)) by {
        lemma_stage(c2, "<ol>"@, Seq::<char>::empty(), Seq::<char>::empty());
        assert(stage_map(c2, "<ol>"@, Seq::<char>::empty(), Seq::<char>::empty()) =~= c3);
    }
    let c4 = seq![(Seq::<char>::empty(), p), ("<strong>"@, t), ("</strong>"@, q)];
    assert(replace_all(join(c3), "</ol>"@, Seq::<char>::empty() + "\n"@) == join(c4) && chunks_valid(c4)) by {
        lemma_stage(c3, "</ol>"@, Seq::<char>::empty(), "\n"@);
        assert(stage_map(c3, "</ol>"@, Seq::<char>::empty(), "\n"@) =~= c4);
    }
    let c5 = seq![(Seq::<char>::empty(), p), ("<strong>"@, t), ("</strong>"@, q)];
    assert(replace_all(join(c4), "<li>"@, Seq::<char>::empty() + "• "@) == join(c5) && chunks_valid(c5)) by {
        lemma_stage(c4, "<li>"@, Seq::<char>::empty(), "• "@);
        assert(stage_map(c4, "<li>"@, Seq::<char>::empty(), "• "@) =~= c5);
    }
    let c6 = seq![(Seq::<char>::empty(), p), ("<strong>"@, t), ("</strong>"@, q)];
    assert(replace_all(join(c5), "</li>"@, Seq::<char>::empty() + "\n"@) == join(c6) && chunks_valid(c6)) by {
        lemma_stage(c5, "</li>"@, Seq::<char>::empty(), "\n"@);
        assert(stage_map(c5, "</li>"@, Seq::<char>::empty(), "\n"@) =~= c6);
    }
    let c7 = seq![(Seq::<char>::empty(), p), ("<strong>"@, t), ("</strong>"@, q)];
    assert(replace_all(join(c6), "<h1>"@, "<b>"@ + Seq::<char>::empty()) == join(c7) && chunks_valid(c7)) by {
        lemma_stage(c6, "<h1>"@, "<b>"@, Seq::<char>::empty());
        assert(stage_map(c6, "<h1>"@, "<b>"@, Seq::<char>::empty()) =~= c7);
    }
    let c8 = seq![(Seq::<char>::empty(), p), ("<strong>"@, t), ("</strong>"@, q)];
    assert(replace_all(join(c7), "</h1>"@, "</b>"@ + "\n"@) == join(c8) && chunks_valid(c8)) by {
        lemma_stage(c7, "</h1>"@, "</b>"@, "\n"@);
        assert(stage_map(c7, "</h1>"@, "</b>"@, "\n"@) =~= c8);
    }
    let c9 = seq![(Seq::<char>::empty(), p), ("<strong>"@, t), ("</strong>"@, q)];
    assert(replace_all(join(c8), "<h2>"@, "<b>"@ + Seq::<char>::empty()) == join(c9) && chunks_valid(c9)) by {
        lemma_stage(c8, "<h2>"@, "<b>"@, Seq::<char>::empty());
        assert(stage_map(c8, "<h2>"@, "<b>"@, Seq::<char>::empty()) =~= c9);
    }
    let c10 = seq![(Seq::<char>::empty(), p), ("<strong>"@, t), ("</strong>"@, q)];
    assert(replace_all(join(c9), "</h2>"@, "</b>"@ + "\n"@) == join(c10) && chunks_valid(c10)) by {
        lemma_stage(c9, "</h2>"@, "</b>"@, "\n"@);
        assert(stage_map(c9, "</h2>"@, "</b>"@, "\n"@) =~= c10);
    }
    let c11 = seq![(Seq::<char>::empty(), p), ("<strong>"@, t), ("</strong>"@, q)];
    assert(replace_all(join(c10), "<h3>"@, "<b>"@ + Seq::<char>::empty()) == join(c11) && chunks_valid(c11)) by {
        lemma_stage(c10, "<h3>"@, "<b>"@, Seq::<char>::empty());
        assert(stage_map(c10, "<h3>"@, "<b>"@, Seq::<char>::empty()) =~= c11);
    }
    let c12 = seq![(Seq::<char>::empty(), p), ("<strong>"@, t), ("</strong>"@, q)];
    assert(replace_all(join(c11), "</h3>"@, "</b>"@ + "\n"@) == join(c12) && chunks_valid(c12)) by {
        lemma_stage(c11, "</h3>"@, "</b>"@, "\n"@);
        assert(stage_map(c11, "</h3>"@, "</b>"@, "\n"@) =~= c12);
    }
    let c13 = seq![(Seq::<char>::empty(), p), ("<strong>"@, t), ("</strong>"@, q)];
    assert(replace_all(join(c12), "<p>"@, Seq::<char>::empty() + Seq::<char>::empty()) == join(c13) && chunks_valid(c13)) by {
        lemma_stage(c12, "<p>"@, Seq::<char>::empty(), Seq::<char>::empty());
        assert(stage_map(c12, "<p>"@, Seq::<char>::empty(), Seq::<char>::empty()) =~= c13);
    }
    let c14 = seq![(Seq::<char>::empty(), p), ("<strong>"@, t), ("</strong>"@, q)];
    assert(replace_all(join(c13), "</p>"@, Seq::<char>::empty() + "\n"@) == join(c14) && chunks_valid(c14)) by {
        lemma_stage(c13, "</p>"@, Seq::<char>::empty(), "\n"@);
        assert(stage_map(c13, "</p>"@, Seq::<char>::empty(), "\n"@) =~= c14);
    }
    let c15 = seq![(Seq::<char>::empty(), p), ("<strong>"@, t), ("</strong>"@, q)];
    assert(replace_all(join(c14), "<br>"@, Seq::<char>::empty() + "\n"@) == join(c15) && chunks_valid(c15)) by {
        lemma_stage(c14, "<br>"@, Seq::<char>::empty(), "\n"@);
        assert(stage_map(c14, "<br>"@, Seq::<char>::empty(), "\n"@) =~= c15);
    }
    let c16 = seq![(Seq::<char>::empty(), p), ("<strong>"@, t), ("</strong>"@, q)];
    assert(replace_all(join(c15), "<br/>"@, Seq::<char>::empty() + "\n"@) == join(c16) && chunks_valid(c16)) by {
        lemma_stage(c15, "<br/>"@, Seq::<char>::empty(), "\n"@);
        assert(stage_map(c15, "<br/>"@, Seq::<char>::empty(), "\n"@) =~= c16);
    }
    let c17 = seq![(Seq::<char>::empty(), p), ("<b>"@, t), ("</strong>"@, q)];
    assert(replace_all(join(c16), "<strong>"@, "<b>"@ + Seq::<char>::empty()) == join(c17) && chunks_valid(c17)) by {
        lemma_stage(c16, "<strong>"@, "<b>"@, Seq::<char>::empty());
        assert(stage_map(c16, "<strong>"@, "<b>"@, Seq::<char>::empty()) =~= c17);
    }
    let c18 = seq![(Seq::<char>::empty(), p), ("<b>"@, t), ("</b>"@, q)];
    assert(replace_all(join(c17), "</strong>"@, "</b>"@ + Seq::<char>::empty()) == join(c18) && chunks_valid(c18)) by {
        lemma_stage(c17, "</strong>"@, "</b>"@, Seq::<char>::empty());
        assert(stage_map(c17, "</strong>"@, "</b>"@, Seq::<char>::empty()) =~= c18);
    }
    let c19 = seq![(Seq::<char>::empty(), p), ("<b>"@, t), ("</b>"@, q)];
    assert(replace_all(join(c18), "<em>"@, "<i>"@ + Seq::<char>::empty()) == join(c19) && chunks_valid(c19)) by {
        lemma_stage(c18, "<em>"@, "<i>"@, Seq::<char>::empty());
        assert(stage_map(c18, "<em>"@, "<i>"@, Seq::<char>::empty()) =~= c19);
    }
    let c20 = seq![(Seq::<char>::empty(), p), ("<b>"@, t), ("</b>"@, q)];
    assert(replace_all(join(c19), "</em>"@, "</i>"@ + Seq::<char>::empty()) == join(c20) && chunks_valid(c20)) by {
        lemma_stage(c19, "</em>"@, "</i>"@, Seq::<char>::empty());
        assert(stage_map(c19, "</em>"@, "</i>"@, Seq::<char>::empty()) =~= c20);
    }
    let c21 = seq![(Seq::<char>::empty(), p), ("<b>"@, t), ("</b>"@, q)];
    assert(replace_all(join(c20), "<div>"@, Seq::<char>::empty() + Seq::<char>::empty()) == join(c21) && chunks_valid(c21)) by {
        lemma_stage(c20, "<div>"@, Seq::<char>::empty(), Seq::<char>::empty());
        assert(stage_map(c20, "<div>"@, Seq::<char>::empty(), Seq::<char>::empty()) =~= c21);
    }
    let c22 = seq![(Seq::<char>::empty(), p), ("<b>"@, t), ("</b>"@, q)];
    assert(replace_all(join(c21), "</div>"@, Seq::<char>::empty() + "\n"@) == join(c22) && chunks_valid(c22)) by {
        lemma_stage(c21, "</div>"@, Seq::<char>::empty(), "\n"@);
        assert(stage_map(c21, "</div>"@, Seq::<char>::empty(), "\n"@) =~= c22);
    }
    let c23 = seq![(Seq::<char>::empty(), p), ("<b>"@, t), ("</b>"@, q)];
    assert(replace_all(join(c22), "<span>"@, Seq::<char>::empty() + Seq::<char>::empty()) == join(c23) && chunks_valid(c23)) by {
        lemma_stage(c22, "<span>"@, Seq::<char>::empty(), Seq::<char>::empty());
        assert(stage_map(c22, "<span>"@, Seq::<char>::empty(), Seq::<char>::empty()) =~= c23);
    }
    let c24 = seq![(Seq::<char>::empty(), p), ("<b>"@, t), ("</b>"@, q)];
    assert(replace_all(join(c23), "</span>"@, Seq::<char>::empty() + Seq::<char>::empty()) == join(c24) && chunks_valid(c24)) by {
        lemma_stage(c23, "</span>"@, Seq::<char>::empty(), Seq::<char>::empty());
        assert(stage_map(c23, "</span>"@, Seq::<char>::empty(), Seq::<char>::empty()) =~= c24);
    }
    lemma_join3((Seq::<char>::empty(), p), ("<b>"@, t), ("</b>"@, q));
    let fin = join(c24);
    assert(sanitized(p + "<strong>"@ + t + "</strong>"@ + q) == trim(replace_all(fin, "\n\n\n"@, "\n\n"@)));
    assert(fin =~= p + "<b>"@ + t + "</b>"@ + q);
    assert(no_nl(p + "<b>"@ + t + "</b>"@));
    lemma_no_triple_break(p + "<b>"@ + t + "</b>"@, q, "\n\n"@);
    if p.len() > 0 {
        assert(fin[0] == p[0]);
    } else {
        assert(fin[0] == "<b>"@[0]);
    }
    assert(fin.last() == q.last());
    lemma_trim_of_trimmed(fin);
}

/// Emphasised text becomes italic text.
#[verifier::spinoff_prover]
#[verifier::rlimit(100)]
pub proof fn lemma_em_rendered(p: Seq<char>, t: Seq<char>, q: Seq<char>)
    requires
        p.len() == 0 || plain_edge(p),
        plain(t),
        plain_edge(q),
    ensures
        sanitized(p + "<em>"@ + t + "</em>"@ + q) == p + "<i>"@ + t + "</i>"@ + q,
{
    lemma_tag_literals();
    lemma_plain_free(p);
    lemma_plain_free(t);
    lemma_plain_free(q);
    let c0 = seq![(Seq::<char>::empty(), p), ("<em>"@, t), ("</em>"@, q)];
    assert(chunks_valid(c0));
    lemma_join3((Seq::<char>::empty(), p), ("<em>"@, t), ("</em>"@, q));
    assert(join(c0) =~= p + "<em>"@ + t + "</em>"@ + q);
    lemma_join_no_star(c0);
    lemma_no_star_bold(join(c0));
    let c1 = seq![(Seq::<char>::empty(), p), ("<em>"@, t), ("</em>"@, q)];
    assert(replace_all(join(c0), "<ul>"@, Seq::<char>::empty() + Seq::<char>::empty()) == join(c1) && chunks_valid(c1)) by {
        lemma_stage(c0, "<ul>"@, Seq::<char>::empty(), Seq::<char>::empty());
        assert(stage_map(c0, "<ul>"@, Seq::<char>::empty(), Seq::<char>::empty()) =~= c1);
    }
    let c2 = seq![(Seq::<char>::empty(), p), ("<em>"@, t), ("</em>"@, q)];
    assert(replace_all(join(c1), "</ul>"@, Seq::<char>::empty() + "\n"@) == join(c2) && chunks_valid(c2)) by {
        lemma_stage(c1, "</ul>"@, Seq::<char>::empty(), "\n"@);
        assert(stage_map(c1, "</ul>"@, Seq::<char>::empty(), "\n"@) =~= c2);
    }
    let c3 = seq![(Seq::<char>::empty(), p), ("<em>"@, t), ("</em>"@, q)];
    assert(replace_all(join(c2), "<ol>"@, Seq::<char>::empty() + Seq::<char>::empty()) == join(c3) && chunks_valid(c3)) by {
        lemma_stage(c2, "<ol>"@, Seq::<char>::empty(), Seq::<char>::empty());
        assert(stage_map(c2, "<ol>"@, Seq::<char>::empty(), Seq::<char>::empty()) =~= c3);
    }
    let c4 = seq![(Seq::<char>::empty(), p), ("<em>"@, t), ("</em>"@, q)];
    assert(replace_all(join(c3), "</ol>"@, Seq::<char>::empty() + "\n"@) == join(c4) && chunks_valid(c4)) by {
        lemma_stage(c3, "</ol>"@, Seq::<char>::empty(), "\n"@);
        assert(stage_map(c3, "</ol>"@, Seq::<char>::empty(), "\n"@) =~= c4);
    }
    let c5 = seq![(Seq::<char>::empty(), p), ("<em>"@, t), ("</em>"@, q)];
    assert(replace_all(join(c4), "<li>"@, Seq::<char>::empty() + "• "@) == join(c5) && chunks_valid(c5)) by {
        lemma_stage(c4, "<li>"@, Seq::<char>::empty(), "• "@);
        assert(stage_map(c4, "<li>"@, Seq::<char>::empty(), "• "@) =~= c5);
    }
    let c6 = seq![(Seq::<char>::empty(), p), ("<em>"@, t), ("</em>"@, q)];
    assert(replace_all(join(c5), "</li>"@, Seq::<char>::empty() + "\n"@) == join(c6) && chunks_valid(c6)) by {
        lemma_stage(c5, "</li>"@, Seq::<char>::empty(), "\n"@);
        assert(stage_map(c5, "</li>"@, Seq::<char>::empty(), "\n"@) =~= c6);
    }
    let c7 = seq![(Seq::<char>::empty(), p), ("<em>"@, t), ("</em>"@, q)];
    assert(replace_all(join(c6), "<h1>"@, "<b>"@ + Seq::<char>::empty()) == join(c7) && chunks_valid(c7)) by {
        lemma_stage(c6, "<h1>"@, "<b>"@, Seq::<char>::empty());
        assert(stage_map(c6, "<h1>"@, "<b>"@, Seq::<char>::empty()) =~= c7);
    }
    let c8 = seq![(Seq::<char>::empty(), p), ("<em>"@, t), ("</em>"@, q)];
    assert(replace_all(join(c7), "</h1>"@, "</b>"@ + "\n"@) == join(c8) && chunks_valid(c8)) by {
        lemma_stage(c7, "</h1>"@, "</b>"@, "\n"@);
        assert(stage_map(c7, "</h1>"@, "</b>"@, "\n"@) =~= c8);
    }
    let c9 = seq![(Seq::<char>::empty(), p), ("<em>"@, t), ("</em>"@, q)];
    assert(replace_all(join(c8), "<h2>"@, "<b>"@ + Seq::<char>::empty()) == join(c9) && chunks_valid(c9)) by {
        lemma_stage(c8, "<h2>"@, "<b>"@, Seq::<char>::empty());
        assert(stage_map(c8, "<h2>"@, "<b>"@, Seq::<char>::empty()) =~= c9);
    }
    let c10 = seq![(Seq::<char>::empty(), p), ("<em>"@, t), ("</em>"@, q)];
    assert(replace_all(join(c9), "</h2>"@, "</b>"@ + "\n"@) == join(c10) && chunks_valid(c10)) by {
        lemma_stage(c9, "</h2>"@, "</b>"@, "\n"@);
        assert(stage_map(c9, "</h2>"@, "</b>"@, "\n"@) =~= c10);
    }
    let c11 = seq![(Seq::<char>::empty(), p), ("<em>"@, t), ("</em>"@, q)];
    assert(replace_all(join(c10), "<h3>"@, "<b>"@ + Seq::<char>::empty()) == join(c11) && chunks_valid(c11)) by {
        lemma_stage(c10, "<h3>"@, "<b>"@, Seq::<char>::empty());
        assert(stage_map(c10, "<h3>"@, "<b>"@, Seq::<char>::empty()) =~= c11);
    }
    let c12 = seq![(Seq::<char>::empty(), p), ("<em>"@, t), ("</em>"@, q)];
    assert(replace_all(join(c11), "</h3>"@, "</b>"@ + "\n"@) == join(c12) && chunks_valid(c12)) by {
        lemma_stage(c11, "</h3>"@, "</b>"@, "\n"@);
        assert(stage_map(c11, "</h3>"@, "</b>"@, "\n"@) =~= c12);
    }
    let c13 = seq![(Seq::<char>::empty(), p), ("<em>"@, t), ("</em>"@, q)];
    assert(replace_all(join(c12), "<p>"@, Seq::<char>::empty() + Seq::<char>::empty()) == join(c13) && chunks_valid(c13)) by {
        lemma_stage(c12, "<p>"@, Seq::<char>::empty(), Seq::<char>::empty());
        assert(stage_map(c12, "<p>"@, Seq::<char>::empty(), Seq::<char>::empty()) =~= c13);
    }
    let c14 = seq![(Seq::<char>::empty(), p), ("<em>"@, t), ("</em>"@, q)];
    assert(replace_all(join(c13), "</p>"@, Seq::<char>::empty() + "\n"@) == join(c14) && chunks_valid(c14)) by {
        lemma_stage(c13, "</p>"@, Seq::<char>::empty(), "\n"@);
        assert(stage_map(c13, "</p>"@, Seq::<char>::empty(), "\n"@) =~= c14);
    }
    let c15 = seq![(Seq::<char>::empty(), p), ("<em>"@, t), ("</em>"@, q)];
    assert(replace_all(join(c14), "<br>"@, Seq::<char>::empty() + "\n"@) == join(c15) && chunks_valid(c15)) by {
        lemma_stage(c14, "<br>"@, Seq::<char>::empty(), "\n"@);
        assert(stage_map(c14, "<br>"@, Seq::<char>::empty(), "\n"@) =~= c15);
    }
    let c16 = seq![(Seq::<char>::empty(), p), ("<em>"@, t), ("</em>"@, q)];
    assert(replace_all(join(c15), "<br/>"@, Seq::<char>::empty() + "\n"@) == join(c16) && chunks_valid(c16)) by {
        lemma_stage(c15, "<br/>"@, Seq::<char>::empty(), "\n"@);
        assert(stage_map(c15, "<br/>"@, Seq::<char>::empty(), "\n"@) =~= c16);
    }
    let c17 = seq![(Seq::<char>::empty(), p), ("<em>"@, t), ("</em>"@, q)];
    assert(replace_all(join(c16), "<strong>"@, "<b>"@ + Seq::<char>::empty()) == join(c17) && chunks_valid(c17)) by {
        lemma_stage(c16, "<strong>"@, "<b>"@, Seq::<char>::empty());
        assert(stage_map(c16, "<strong>"@, "<b>"@, Seq::<char>::empty()) =~= c17);
    }
    let c18 = seq![(Seq::<char>::empty(), p), ("<em>"@, t), ("</em>"@, q)];
    assert(replace_all(join(c17), "</strong>"@, "</b>"@ + Seq::<char>::empty()) == join(c18) && chunks_valid(c18)) by {
        lemma_stage(c17, "</strong>"@, "</b>"@, Seq::<char>::empty());
        assert(stage_map(c17, "</strong>"@, "</b>"@, Seq::<char>::empty()) =~= c18);
    }
    let c19 = seq![(Seq::<char>::empty(), p), ("<i>"@, t), ("</em>"@, q)];
    assert(replace_all(join(c18), "<em>"@, "<i>"@ + Seq::<char>::empty()) == join(c19) && chunks_valid(c19)) by {
        lemma_stage(c18, "<em>"@, "<i>"@, Seq::<char>::empty());
        assert(stage_map(c18, "<em>"@, "<i>"@, Seq::<char>::empty()) =~= c19);
    }
    let c20 = seq![(Seq::<char>::empty(), p), ("<i>"@, t), ("</i>"@, q)];
    assert(replace_all(join(c19), "</em>"@, "</i>"@ + Seq::<char>::empty()) == join(c20) && chunks_valid(c20)) by {
        lemma_stage(c19, "</em>"@, "</i>"@, Seq::<char>::empty());
        assert(stage_map(c19, "</em>"@, "</i>"@, Seq::<char>::empty()) =~= c20);
    }
    let c21 = seq![(Seq::<char>::empty(), p), ("<i>"@, t), ("</i>"@, q)];
    assert(replace_all(join(c20), "<div>"@, Seq::<char>::empty() + Seq::<char>::empty()) == join(c21) && chunks_valid(c21)) by {
        lemma_stage(c20, "<div>"@, Seq::<char>::empty(), Seq::<char>::empty());
        assert(stage_map(c20, "<div>"@, Seq::<char>::empty(), Seq::<char>::empty()) =~= c21);
    }
    let c22 = seq![(Seq::<char>::empty(), p), ("<i>"@, t), ("</i>"@, q)];
    assert(replace_all(join(c21), "</div>"@, Seq::<char>::empty() + "\n"@) == join(c22) && chunks_valid(c22)) by {
        lemma_stage(c21, "</div>"@, Seq::<char>::empty(), "\n"@);
        assert(stage_map(c21, "</div>"@, Seq::<char>::empty(), "\n"@) =~= c22);
    }
    let c23 = seq![(Seq::<char>::empty(), p), ("<i>"@, t), ("</i>"@, q)];
    assert(replace_all(join(c22), "<span>"@, Seq::<char>::empty() + Seq::<char>::empty()) == join(c23) && chunks_valid(c23)) by {
        lemma_stage(c22, "<span>"@, Seq::<char>::empty(), Seq::<char>::empty());
        assert(stage_map(c22, "<span>"@, Seq::<char>::empty(), Seq::<char>::empty()) =~= c23);
    }
    let c24 = seq![(Seq::<char>::empty(), p), ("<i>"@, t), ("</i>"@, q)];
    assert(replace_all(join(c23), "</span>"@, Seq::<char>::empty() + Seq::<char>::empty()) == join(c24) && chunks_valid(c24)) by {
        lemma_stage(c23, "</span>"@, Seq::<char>::empty(), Seq::<char>::empty());
        assert(stage_map(c23, "</span>"@, Seq::<char>::empty(), Seq::<char>::empty()) =~= c24);
    }
    lemma_join3((Seq::<char>::empty(), p), ("<i>"@, t), ("</i>"@, q));
    let fin = join(c24);
    assert(sanitized(p + "<em>"@ + t + "</em>"@ + q) == trim(replace_all(fin, "\n\n\n"@, "\n\n"@)));
    assert(fin =~= p + "<i>"@ + t + "</i>"@ + q);
    assert(no_nl(p + "<i>"@ + t + "</i>"@));
    lemma_no_triple_break(p + "<i>"@ + t + "</i>"@, q, "\n\n"@);
    if p.len() > 0 {
        assert(fin[0] == p[0]);
    } else {
        assert(fin[0] == "<i>"@[0]);
    }
    assert(fin.last() == q.last());
    lemma_trim_of_trimmed(fin);
}

/// A division's tags are dropped and its end becomes a line break.
#[verifier::spinoff_prover]
#[verifier::rlimit(100)]
pub proof fn lemma_div_rendered(p: Seq<char>, t: Seq<char>, q: Seq<char>)
    requires
        plain_edge(p),
        plain(t),
        plain_edge(q),
    ensures
        sanitized(p + "<div>"@ + t + "</div>"@ + q) == p + ""@ + t + "\n"@ + q,
{
    lemma_tag_literals();
    lemma_plain_free(p);
    lemma_plain_free(t);
    lemma_plain_free(q);
    let c0 = seq![(Seq::<char>::empty(), p), ("<div>"@, t), ("</div>"@, q)];
    assert(chunks_valid(c0));
    lemma_join3((Seq::<char>::empty(), p), ("<div>"@, t), ("</div>"@, q));
    assert(join(c0) =~= p + "<div>"@ + t + "</div>"@ + q);
    lemma_join_no_star(c0);
    lemma_no_star_bold(join(c0));
    let c1 = seq![(Seq::<char>::empty(), p), ("<div>"@, t), ("</div>"@, q)];
    assert(replace_all(join(c0), "<ul>"@, Seq::<char>::empty() + Seq::<char>::empty()) == join(c1) && chunks_valid(c1)) by {
        lemma_stage(c0, "<ul>"@, Seq::<char>::empty(), Seq::<char>::empty());
        assert(stage_map(c0, "<ul>"@, Seq::<char>::empty(), Seq::<char>::empty()) =~= c1);
    }
    let c2 = seq![(Seq::<char>::empty(), p), ("<div>"@, t), ("</div>"@, q)];
    assert(replace_all(join(c1), "</ul>"@, Seq::<char>::empty() + "\n"@) == join(c2) && chunks_valid(c2)) by {
        lemma_stage(c1, "</ul>"@, Seq::<char>::empty(), "\n"@);
        assert(stage_map(c1, "</ul>"@, Seq::<char>::empty(), "\n"@) =~= c2);
    }
    let c3 = seq![(Seq::<char>::empty(), p), ("<div>"@, t), ("</div>"@, q)];
    assert(replace_all(join(c2), "<ol>"@, Seq::<char>::empty() + Seq::<char>::empty()) == join(c3) && chunks_valid(c3)) by {
        lemma_stage(c2, "<ol>"@, Seq::<char>::empty(), Seq::<char>::empty());
        assert(stage_map(c2, "<ol>"@, Seq::<char>::empty(), Seq::<char>::empty()) =~= c3);
    }
    let c4 = seq![(Seq::<char>::empty(), p), ("<div>"@, t), ("</div>"@, q)];
    assert(replace_all(join(c3), "</ol>"@, Seq::<char>::empty() + "\n"@) == join(c4) && chunks_valid(c4)) by {
        lemma_stage(c3, "</ol>"@, Seq::<char>::empty(), "\n"@);
        assert(stage_map(c3, "</ol>"@, Seq::<char>::empty(), "\n"@) =~= c4);
    }
    let c5 = seq![(Seq::<char>::empty(), p), ("<div>"@, t), ("</div>"@, q)];
    assert(replace_all(join(c4), "<li>"@, Seq::<char>::empty() + "• "@) == join(c5) && chunks_valid(c5)) by {
        lemma_stage(c4, "<li>"@, Seq::<char>::empty(), "• "@);
        assert(stage_map(c4, "<li>"@, Seq::<char>::empty(), "• "@) =~= c5);
    }
    let c6 = seq![(Seq::<char>::empty(), p), ("<div>"@, t), ("</div>"@, q)];
    assert(replace_all(join(c5), "</li>"@, Seq::<char>::empty() + "\n"@) == join(c6) && chunks_valid(c6)) by {
        lemma_stage(c5, "</li>"@, Seq::<char>::empty(), "\n"@);
        assert(stage_map(c5, "</li>"@, Seq::<char>::empty(), "\n"@) =~= c6);
    }
    let c7 = seq![(Seq::<char>::empty(), p), ("<div>"@, t), ("</div>"@, q)];
    assert(replace_all(join(c6), "<h1>"@, "<b>"@ + Seq::<char>::empty()) == join(c7) && chunks_valid(c7)) by {
        lemma_stage(c6, "<h1>"@, "<b>"@, Seq::<char>::empty());
        assert(stage_map(c6, "<h1>"@, "<b>"@, Seq::<char>::empty()) =~= c7);
    }
    let c8 = seq![(Seq::<char>::empty(), p), ("<div>"@, t), ("</div>"@, q)];
    assert(replace_all(join(c7), "</h1>"@, "</b>"@ + "\n"@) == join(c8) && chunks_valid(c8)) by {
        lemma_stage(c7, "</h1>"@, "</b>"@, "\n"@);
        assert(stage_map(c7, "</h1>"@, "</b>"@, "\n"@) =~= c8);
    }
    let c9 = seq![(Seq::<char>::empty(), p), ("<div>"@, t), ("</div>"@, q)];
    assert(replace_all(join(c8), "<h2>"@, "<b>"@ + Seq::<char>::empty()) == join(c9) && chunks_valid(c9)) by {
        lemma_stage(c8, "<h2>"@, "<b>"@, Seq::<char>::empty());
        assert(stage_map(c8, "<h2>"@, "<b>"@, Seq::<char>::empty()) =~= c9);
    }
    let c10 = seq![(Seq::<char>::empty(), p), ("<div>"@, t), ("</div>"@, q)];
    assert(replace_all(join(c9), "</h2>"@, "</b>"@ + "\n"@) == join(c10) && chunks_valid(c10)) by {
        lemma_stage(c9, "</h2>"@, "</b>"@, "\n"@);
        assert(stage_map(c9, "</h2>"@, "</b>"@, "\n"@) =~= c10);
    }
    let c11 = seq![(Seq::<char>::empty(), p), ("<div>"@, t), ("</div>"@, q)];
    assert(replace_all(join(c10), "<h3>"@, "<b>"@ + Seq::<char>::empty()) == join(c11) && chunks_valid(c11)) by {
        lemma_stage(c10, "<h3>"@, "<b>"@, Seq::<char>::empty());
        assert(stage_map(c10, "<h3>"@, "<b>"@, Seq::<char>::empty()) =~= c11);
    }
    let c12 = seq![(Seq::<char>::empty(), p), ("<div>"@, t), ("</div>"@, q)];
    assert(replace_all(join(c11), "</h3>"@, "</b>"@ + "\n"@) == join(c12) && chunks_valid(c12)) by {
        lemma_stage(c11, "</h3>"@, "</b>"@, "\n"@);
        assert(stage_map(c11, "</h3>"@, "</b>"@, "\n"@) =~= c12);
    }
    let c13 = seq![(Seq::<char>::empty(), p), ("<div>"@, t), ("</div>"@, q)];
    assert(replace_all(join(c12), "<p>"@, Seq::<char>::empty() + Seq::<char>::empty()) == join(c13) && chunks_valid(c13)) by {
        lemma_stage(c12, "<p>"@, Seq::<char>::empty(), Seq::<char>::empty());
        assert(stage_map(c12, "<p>"@, Seq::<char>::empty(), Seq::<char>::empty()) =~= c13);
    }
    let c14 = seq![(Seq::<char>::empty(), p), ("<div>"@, t), ("</div>"@, q)];
    assert(replace_all(join(c13), "</p>"@, Seq::<char>::empty() + "\n"@) == join(c14) && chunks_valid(c14)) by {
        lemma_stage(c13, "</p>"@, Seq::<char>::empty(), "\n"@);
        assert(stage_map(c13, "</p>"@, Seq::<char>::empty(), "\n"@) =~= c14);
    }
    let c15 = seq![(Seq::<char>::empty(), p), ("<div>"@, t), ("</div>"@, q)];
    assert(replace_all(join(c14), "<br>"@, Seq::<char>::empty() + "\n"@) == join(c15) && chunks_valid(c15)) by {
        lemma_stage(c14, "<br>"@, Seq::<char>::empty(), "\n"@);
        assert(stage_map(c14, "<br>"@, Seq::<char>::empty(), "\n"@) =~= c15);
    }
    let c16 = seq![(Seq::<char>::empty(), p), ("<div>"@, t), ("</div>"@, q)];
    assert(replace_all(join(c15), "<br/>"@, Seq::<char>::empty() + "\n"@) == join(c16) && chunks_valid(c16)) by {
        lemma_stage(c15, "<br/>"@, Seq::<char>::empty(), "\n"@);
        assert(stage_map(c15, "<br/>"@, Seq::<char>::empty(), "\n"@) =~= c16);
    }
    let c17 = seq![(Seq::<char>::empty(), p), ("<div>"@, t), ("</div>"@, q)];
    assert(replace_all(join(c16), "<strong>"@, "<b>"@ + Seq::<char>::empty()) == join(c17) && chunks_valid(c17)) by {
        lemma_stage(c16, "<strong>"@, "<b>"@, Seq::<char>::empty());
        assert(stage_map(c16, "<strong>"@, "<b>"@, Seq::<char>::empty()) =~= c17);
    }
    let c18 = seq![(Seq::<char>::empty(), p), ("<div>"@, t), ("</div>"@, q)];
    assert(replace_all(join(c17), "</strong>"@, "</b>"@ + Seq::<char>::empty()) == join(c18) && chunks_valid(c18)) by {
        lemma_stage(c17, "</strong>"@, "</b>"@, Seq::<char>::empty());
        assert(stage_map(c17, "</strong>"@, "</b>"@, Seq::<char>::empty()) =~= c18);
    }
    let c19 = seq![(Seq::<char>::empty(), p), ("<div>"@, t), ("</div>"@, q)];
    assert(replace_all(join(c18), "<em>"@, "<i>"@ + Seq::<char>::empty()) == join(c19) && chunks_valid(c19)) by {
        lemma_stage(c18, "<em>"@, "<i>"@, Seq::<char>::empty());
        assert(stage_map(c18, "<em>"@, "<i>"@, Seq::<char>::empty()) =~= c19);
    }
    let c20 = seq![(Seq::<char>::empty(), p), ("<div>"@, t), ("</div>"@, q)];
    assert(replace_all(join(c19), "</em>"@, "</i>"@ + Seq::<char>::empty()) == join(c20) && chunks_valid(c20)) by {
        lemma_stage(c19, "</em>"@, "</i>"@, Seq::<char>::empty());
        assert(stage_map(c19, "</em>"@, "</i>"@, Seq::<char>::empty()) =~= c20);
    }
    let c21 = seq![(Seq::<char>::empty(), p), (Seq::<char>::empty(), t), ("</div>"@, q)];
    assert(replace_all(join(c20), "<div>"@, Seq::<char>::empty() + Seq::<char>::empty()) == join(c21) && chunks_valid(c21)) by {
        lemma_stage(c20, "<div>"@, Seq::<char>::empty(), Seq::<char>::empty());
        assert(stage_map(c20, "<div>"@, Seq::<char>::empty(), Seq::<char>::empty()) =~= c21);
    }
    let c22 = seq![(Seq::<char>::empty(), p), (Seq::<char>::empty(), t), (Seq::<char>::empty(), "\n"@ + q)];
    assert(replace_all(join(c21), "</div>"@, Seq::<char>::empty() + "\n"@) == join(c22) && chunks_valid(c22)) by {
        lemma_stage(c21, "</div>"@, Seq::<char>::empty(), "\n"@);
        assert(stage_map(c21, "</div>"@, Seq::<char>::empty(), "\n"@) =~= c22);
    }
    let c23 = seq![(Seq::<char>::empty(), p), (Seq::<char>::empty(), t), (Seq::<char>::empty(), "\n"@ + q)];
    assert(replace_all(join(c22), "<span>"@, Seq::<char>::empty() + Seq::<char>::empty()) == join(c23) && chunks_valid(c23)) by {
        lemma_stage(c22, "<span>"@, Seq::<char>::empty(), Seq::<char>::empty());
        assert(stage_map(c22, "<span>"@, Seq::<char>::empty(), Seq::<char>::empty()) =~= c23);
    }
    let c24 = seq![(Seq::<char>::empty(), p), (Seq::<char>::empty(), t), (Seq::<char>::empty(), "\n"@ + q)];
    assert(replace_all(join(c23), "</span>"@, Seq::<char>::empty() + Seq::<char>::empty()) == join(c24) && chunks_valid(c24)) by {
        lemma_stage(c23, "</span>"@, Seq::<char>::empty(), Seq::<char>::empty());
        assert(stage_map(c23, "</span>"@, Seq::<char>::empty(), Seq::<char>::empty()) =~= c24);
    }
    lemma_join3((Seq::<char>::empty(), p), (Seq::<char>::empty(), t), (Seq::<char>::empty(), "\n"@ + q));
    let fin = join(c24);
    assert(sanitized(p + "<div>"@ + t + "</div>"@ + q) == trim(replace_all(fin, "\n\n\n"@, "\n\n"@)));
    assert(fin =~= p + ""@ + t + "\n"@ + q);
    assert(no_nl(p + ""@ + t + ""@));
    assert(fin =~= p + ""@ + t + ""@ + "\n"@ + q);
    lemma_no_triple_break(p + ""@ + t + ""@, q, "\n\n"@);
    assert(fin[0] == p[0]);
    assert(fin.last() == q.last());
    lemma_trim_of_trimmed(fin);
}

/// A span's tags are dropped.
#[verifier::spinoff_prover]
#[verifier::rlimit(100)]
pub proof fn lemma_span_rendered(p: Seq<char>, t: Seq<char>, q: Seq<char>)
    requires
        plain_edge(p),
        plain(t),
        plain_edge(q),
    ensures
        sanitized(p + "<span>"@ + t + "</span>"@ + q) == p + ""@ + t + ""@ + q,
{
    lemma_tag_literals();
    lemma_plain_free(p);
    lemma_plain_free(t);
    lemma_plain_free(q);
    let c0 = seq![(Seq::<char>::empty(), p), ("<span>"@, t), ("</span>"@, q)];
    assert(chunks_valid(c0));
    lemma_join3((Seq::<char>::empty(), p), ("<span>"@, t), ("</span>"@, q));
    assert(join(c0) =~= p + "<span>"@ + t + "</span>"@ + q);
    lemma_join_no_star(c0);
    lemma_no_star_bold(join(c0));
    let c1 = seq![(Seq::<char>::empty(), p), ("<span>"@, t), ("</span>"@, q)];
    assert(replace_all(join(c0), "<ul>"@, Seq::<char>::empty() + Seq::<char>::empty()) == join(c1) && chunks_valid(c1)) by {
        lemma_stage(c0, "<ul>"@, Seq::<char>::empty(), Seq::<char>::empty());
        assert(stage_map(c0, "<ul>"@, Seq::<char>::empty(), Seq::<char>::empty()) =~= c1);
    }
    let c2 = seq![(Seq::<char>::empty(), p), ("<span>"@, t), ("</span>"@, q)];
    assert(replace_all(join(c1), "</ul>"@, Seq::<char>::empty() + "\n"@) == join(c2) && chunks_valid(c2)) by {
        lemma_stage(c1, "</ul>"@, Seq::<char>::empty(), "\n"@);
        assert(stage_map(c1, "</ul>"@, Seq::<char>::empty(), "\n"@) =~= c2);
    }
    let c3 = seq![(Seq::<char>::empty(), p), ("<span>"@, t), ("</span>"@, q)];
    assert(replace_all(join(c2), "<ol>"@, Seq::<char>::empty() + Seq::<char>::empty()) == join(c3) && chunks_valid(c3)) by {
        lemma_stage(c2, "<ol>"@, Seq::<char>::empty(), Seq::<char>::empty());
        assert(stage_map(c2, "<ol>"@, Seq::<char>::empty(), Seq::<char>::empty()) =~= c3);
    }
    let c4 = seq![(Seq::<char>::empty(), p), ("<span>"@, t), ("</span>"@, q)];
    assert(replace_all(join(c3), "</ol>"@, Seq::<char>::empty() + "\n"@) == join(c4) && chunks_valid(c4)) by {
        lemma_stage(c3, "</ol>"@, Seq::<char>::empty(), "\n"@);
        assert(stage_map(c3, "</ol>"@, Seq::<char>::empty(), "\n"@) =~= c4);
    }
    let c5 = seq![(Seq::<char>::empty(), p), ("<span>"@, t), ("</span>"@, q)];
    assert(replace_all(join(c4), "<li>"@, Seq::<char>::empty() + "• "@) == join(c5) && chunks_valid(c5)) by {
        lemma_stage(c4, "<li>"@, Seq::<char>::empty(), "• "@);
        assert(stage_map(c4, "<li>"@, Seq::<char>::empty(), "• "@) =~= c5);
    }
    let c6 = seq![(Seq::<char>::empty(), p), ("<span>"@, t), ("</span>"@, q)];
    assert(replace_all(join(c5), "</li>"@, Seq::<char>::empty() + "\n"@) == join(c6) && chunks_valid(c6)) by {
        lemma_stage(c5, "</li>"@, Seq::<char>::empty(), "\n"@);
        assert(stage_map(c5, "</li>"@, Seq::<char>::empty(), "\n"@) =~= c6);
    }
    let c7 = seq![(Seq::<char>::empty(), p), ("<span>"@, t), ("</span>"@, q)];
    assert(replace_all(join(c6), "<h1>"@, "<b>"@ + Seq::<char>::empty()) == join(c7) && chunks_valid(c7)) by {
        lemma_stage(c6, "<h1>"@, "<b>"@, Seq::<char>::empty());
        assert(stage_map(c6, "<h1>"@, "<b>"@, Seq::<char>::empty()) =~= c7);
    }
    let c8 = seq![(Seq::<char>::empty(), p), ("<span>"@, t), ("</span>"@, q)];
    assert(replace_all(join(c7), "</h1>"@, "</b>"@ + "\n"@) == join(c8) && chunks_valid(c8)) by {
        lemma_stage(c7, "</h1>"@, "</b>"@, "\n"@);
        assert(stage_map(c7, "</h1>"@, "</b>"@, "\n"@) =~= c8);
    }
    let c9 = seq![(Seq::<char>::empty(), p), ("<span>"@, t), ("</span>"@, q)];
    assert(replace_all(join(c8), "<h2>"@, "<b>"@ + Seq::<char>::empty()) == join(c9) && chunks_valid(c9)) by {
        lemma_stage(c8, "<h2>"@, "<b>"@, Seq::<char>::empty());
        assert(stage_map(c8, "<h2>"@, "<b>"@, Seq::<char>::empty()) =~= c9);
    }
    let c10 = seq![(Seq::<char>::empty(), p), ("<span>"@, t), ("</span>"@, q)];
    assert(replace_all(join(c9), "</h2>"@, "</b>"@ + "\n"@) == join(c10) && chunks_valid(c10)) by {
        lemma_stage(c9, "</h2>"@, "</b>"@, "\n"@);
        assert(stage_map(c9, "</h2>"@, "</b>"@, "\n"@) =~= c10);
    }
    let c11 = seq![(Seq::<char>::empty(), p), ("<span>"@, t), ("</span>"@, q)];
    assert(replace_all(join(c10), "<h3>"@, "<b>"@ + Seq::<char>::empty()) == join(c11) && chunks_valid(c11)) by {
        lemma_stage(c10, "<h3>"@, "<b>"@, Seq::<char>::empty());
        assert(stage_map(c10, "<h3>"@, "<b>"@, Seq::<char>::empty()) =~= c11);
    }
    let c12 = seq![(Seq::<char>::empty(), p), ("<span>"@, t), ("</span>"@, q)];
    assert(replace_all(join(c11), "</h3>"@, "</b>"@ + "\n"@) == join(c12) && chunks_valid(c12)) by {
        lemma_stage(c11, "</h3>"@, "</b>"@, "\n"@);
        assert(stage_map(c11, "</h3>"@, "</b>"@, "\n"@) =~= c12);
    }
    let c13 = seq![(Seq::<char>::empty(), p), ("<span>"@, t), ("</span>"@, q)];
    assert(replace_all(join(c12), "<p>"@, Seq::<char>::empty() + Seq::<char>::empty()) == join(c13) && chunks_valid(c13)) by {
        lemma_stage(c12, "<p>"@, Seq::<char>::empty(), Seq::<char>::empty());
        assert(stage_map(c12, "<p>"@, Seq::<char>::empty(), Seq::<char>::empty()) =~= c13);
    }
    let c14 = seq![(Seq::<char>::empty(), p), ("<span>"@, t), ("</span>"@, q)];
    assert(replace_all(join(c13), "</p>"@, Seq::<char>::empty() + "\n"@) == join(c14) && chunks_valid(c14)) by {
        lemma_stage(c13, "</p>"@, Seq::<char>::empty(), "\n"@);
        assert(stage_map(c13, "</p>"@, Seq::<char>::empty(), "\n"@) =~= c14);
    }
    let c15 = seq![(Seq::<char>::empty(), p), ("<span>"@, t), ("</span>"@, q)];
    assert(replace_all(join(c14), "<br>"@, Seq::<char>::empty() + "\n"@) == join(c15) && chunks_valid(c15)) by {
        lemma_stage(c14, "<br>"@, Seq::<char>::empty(), "\n"@);
        assert(stage_map(c14, "<br>"@, Seq::<char>::empty(), "\n"@) =~= c15);
    }
    let c16 = seq![(Seq::<char>::empty(), p), ("<span>"@, t), ("</span>"@, q)];
    assert(replace_all(join(c15), "<br/>"@, Seq::<char>::empty() + "\n"@) == join(c16) && chunks_valid(c16)) by {
        lemma_stage(c15, "<br/>"@, Seq::<char>::empty(), "\n"@);
        assert(stage_map(c15, "<br/>"@, Seq::<char>::empty(), "\n"@) =~= c16);
    }
    let c17 = seq![(Seq::<char>::empty(), p), ("<span>"@, t), ("</span>"@, q)];
    assert(replace_all(join(c16), "<strong>"@, "<b>"@ + Seq::<char>::empty()) == join(c17) && chunks_valid(c17)) by {
        lemma_stage(c16, "<strong>"@, "<b>"@, Seq::<char>::empty());
        assert(stage_map(c16, "<strong>"@, "<b>"@, Seq::<char>::empty()) =~= c17);
    }
    let c18 = seq![(Seq::<char>::empty(), p), ("<span>"@, t), ("</span>"@, q)];
    assert(replace_all(join(c17), "</strong>"@, "</b>"@ + Seq::<char>::empty()) == join(c18) && chunks_valid(c18)) by {
        lemma_stage(c17, "</strong>"@, "</b>"@, Seq::<char>::empty());
        assert(stage_map(c17, "</strong>"@, "</b>"@, Seq::<char>::empty()) =~= c18);
    }
    let c19 = seq![(Seq::<char>::empty(), p), ("<span>"@, t), ("</span>"@, q)];
    assert(replace_all(join(c18), "<em>"@, "<i>"@ + Seq::<char>::empty()) == join(c19) && chunks_valid(c19)) by {
        lemma_stage(c18, "<em>"@, "<i>"@, Seq::<char>::empty());
        assert(stage_map(c18, "<em>"@, "<i>"@, Seq::<char>::empty()) =~= c19);
    }
    let c20 = seq![(Seq::<char>::empty(), p), ("<span>"@, t), ("</span>"@, q)];
    assert(replace_all(join(c19), "</em>"@, "</i>"@ + Seq::<char>::empty()) == join(c20) && chunks_valid(c20)) by {
        lemma_stage(c19, "</em>"@, "</i>"@, Seq::<char>::empty());
        assert(stage_map(c19, "</em>"@, "</i>"@, Seq::<char>::empty()) =~= c20);
    }
    let c21 = seq![(Seq::<char>::empty(), p), ("<span>"@, t), ("</span>"@, q)];
    assert(replace_all(join(c20), "<div>"@, Seq::<char>::empty() + Seq::<char>::empty()) == join(c21) && chunks_valid(c21)) by {
        lemma_stage(c20, "<div>"@, Seq::<char>::empty(), Seq::<char>::empty());
        assert(stage_map(c20, "<div>"@, Seq::<char>::empty(), Seq::<char>::empty()) =~= c21);
    }
    let c22 = seq![(Seq::<char>::empty(), p), ("<span>"@, t), ("</span>"@, q)];
    assert(replace_all(join(c21), "</div>"@, Seq::<char>::empty() + "\n"@) == join(c22) && chunks_valid(c22)) by {
        lemma_stage(c21, "</div>"@, Seq::<char>::empty(), "\n"@);
        assert(stage_map(c21, "</div>"@, Seq::<char>::empty(), "\n"@) =~= c22);
    }
    let c23 = seq![(Seq::<char>::empty(), p), (Seq::<char>::empty(), t), ("</span>"@, q)];
    assert(replace_all(join(c22), "<span>"@, Seq::<char>::empty() + Seq::<char>::empty()) == join(c23) && chunks_valid(c23)) by {
        lemma_stage(c22, "<span>"@, Seq::<char>::empty(), Seq::<char>::empty());
        assert(stage_map(c22, "<span>"@, Seq::<char>::empty(), Seq::<char>::empty()) =~= c23);
    }
    let c24 = seq![(Seq::<char>::empty(), p), (Seq::<char>::empty(), t), (Seq::<char>::empty(), q)];
    assert(replace_all(join(c23), "</span>"@, Seq::<char>::empty() + Seq::<char>::empty()) == join(c24) && chunks_valid(c24)) by {
        lemma_stage(c23, "</span>"@, Seq::<char>::empty(), Seq::<char>::empty());
        assert(stage_map(c23, "</span>"@, Seq::<char>::empty(), Seq::<char>::empty()) =~= c24);
    }
    lemma_join3((Seq::<char>::empty(), p), (Seq::<char>::empty(), t), (Seq::<char>::empty(), q));
    let fin = join(c24);
    assert(sanitized(p + "<span>"@ + t + "</span>"@ + q) == trim(replace_all(fin, "\n\n\n"@, "\n\n"@)));
    assert(fin =~= p + ""@ + t + ""@ + q);
    assert(no_nl(p + ""@ + t + ""@));
    lemma_no_triple_break(p + ""@ + t + ""@, q, "\n\n"@);
    assert(fin[0] == p[0]);
    assert(fin.last() == q.last());
    lemma_trim_of_trimmed(fin);
}

/// A line-break tag becomes a line break.
#[verifier::spinoff_prover]
#[verifier::rlimit(100)]
pub proof fn lemma_br_rendered(p: Seq<char>, q: Seq<char>)
    requires
        plain_edge(p),
        plain_edge(q),
    ensures
        sanitized(p + "<br>"@ + q) == p + "\n"@ + q,
{
    lemma_tag_literals();
    lemma_plain_free(p);
    lemma_plain_free(q);
    let c0 = seq![(Seq::<char>::empty(), p), ("<br>"@, q)];
    assert(chunks_valid(c0));
    lemma_join2((Seq::<char>::empty(), p), ("<br>"@, q));
    assert(join(c0) =~= p + "<br>"@ + q);
    lemma_join_no_star(c0);
    lemma_no_star_bold(join(c0));
    let c1 = seq![(Seq::<char>::empty(), p), ("<br>"@, q)];
    assert(replace_all(join(c0), "<ul>"@, Seq::<char>::empty() + Seq::<char>::empty()) == join(c1) && chunks_valid(c1)) by {
        lemma_stage(c0, "<ul>"@, Seq::<char>::empty(), Seq::<char>::empty());
        assert(stage_map(c0, "<ul>"@, Seq::<char>::empty(), Seq::<char>::empty()) =~= c1);
    }
    let c2 = seq![(Seq::<char>::empty(), p), ("<br>"@, q)];
    assert(replace_all(join(c1), "</ul>"@, Seq::<char>::empty() + "\n"@) == join(c2) && chunks_valid(c2)) by {
        lemma_stage(c1, "</ul>"@, Seq::<char>::empty(), "\n"@);
        assert(stage_map(c1, "</ul>"@, Seq::<char>::empty(), "\n"@) =~= c2);
    }
    let c3 = seq![(Seq::<char>::empty(), p), ("<br>"@, q)];
    assert(replace_all(join(c2), "<ol>"@, Seq::<char>::empty() + Seq::<char>::empty()) == join(c3) && chunks_valid(c3)) by {
        lemma_stage(c2, "<ol>"@, Seq::<char>::empty(), Seq::<char>::empty());
        assert(stage_map(c2, "<ol>"@, Seq::<char>::empty(), Seq::<char>::empty()) =~= c3);
    }
    let c4 = seq![(Seq::<char>::empty(), p), ("<br>"@, q)];
    assert(replace_all(join(c3), "</ol>"@, Seq::<char>::empty() + "\n"@) == join(c4) && chunks_valid(c4)) by {
        lemma_stage(c3, "</ol>"@, Seq::<char>::empty(), "\n"@);
        assert(stage_map(c3, "</ol>"@, Seq::<char>::empty(), "\n"@) =~= c4);
    }
    let c5 = seq![(Seq::<char>::empty(), p), ("<br>"@, q)];
    assert(replace_all(join(c4), "<li>"@, Seq::<char>::empty() + "• "@) == join(c5) && chunks_valid(c5)) by {
        lemma_stage(c4, "<li>"@, Seq::<char>::empty(), "• "@);
        assert(stage_map(c4, "<li>"@, Seq::<char>::empty(), "• "@) =~= c5);
    }
    let c6 = seq![(Seq::<char>::empty(), p), ("<br>"@, q)];
    assert(replace_all(join(c5), "</li>"@, Seq::<char>::empty() + "\n"@) == join(c6) && chunks_valid(c6)) by {
        lemma_stage(c5, "</li>"@, Seq::<char>::empty(), "\n"@);
        assert(stage_map(c5, "</li>"@, Seq::<char>::empty(), "\n"@) =~= c6);
    }
    let c7 = seq![(Seq::<char>::empty(), p), ("<br>"@, q)];
    assert(replace_all(join(c6), "<h1>"@, "<b>"@ + Seq::<char>::empty()) == join(c7) && chunks_valid(c7)) by {
        lemma_stage(c6, "<h1>"@, "<b>"@, Seq::<char>::empty());
        assert(stage_map(c6, "<h1>"@, "<b>"@, Seq::<char>::empty()) =~= c7);
    }
    let c8 = seq![(Seq::<char>::empty(), p), ("<br>"@, q)];
    assert(replace_all(join(c7), "</h1>"@, "</b>"@ + "\n"@) == join(c8) && chunks_valid(c8)) by {
        lemma_stage(c7, "</h1>"@, "</b>"@, "\n"@);
        assert(stage_map(c7, "</h1>"@, "</b>"@, "\n"@) =~= c8);
    }
    let c9 = seq![(Seq::<char>::empty(), p), ("<br>"@, q)];
    assert(replace_all(join(c8), "<h2>"@, "<b>"@ + Seq::<char>::empty()) == join(c9) && chunks_valid(c9)) by {
        lemma_stage(c8, "<h2>"@, "<b>"@, Seq::<char>::empty());
        assert(stage_map(c8, "<h2>"@, "<b>"@, Seq::<char>::empty()) =~= c9);
    }
    let c10 = seq![(Seq::<char>::empty(), p), ("<br>"@, q)];
    assert(replace_all(join(c9), "</h2>"@, "</b>"@ + "\n"@) == join(c10) && chunks_valid(c10)) by {
        lemma_stage(c9, "</h2>"@, "</b>"@, "\n"@);
        assert(stage_map(c9, "</h2>"@, "</b>"@, "\n"@) =~= c10);
    }
    let c11 = seq![(Seq::<char>::empty(), p), ("<br>"@, q)];
    assert(replace_all(join(c10), "<h3>"@, "<b>"@ + Seq::<char>::empty()) == join(c11) && chunks_valid(c11)) by {
        lemma_stage(c10, "<h3>"@, "<b>"@, Seq::<char>::empty());
        assert(stage_map(c10, "<h3>"@, "<b>"@, Seq::<char>::empty()) =~= c11);
    }
    let c12 = seq![(Seq::<char>::empty(), p), ("<br>"@, q)];
    assert(replace_all(join(c11), "</h3>"@, "</b>"@ + "\n"@) == join(c12) && chunks_valid(c12)) by {
        lemma_stage(c11, "</h3>"@, "</b>"@, "\n"@);
        assert(stage_map(c11, "</h3>"@, "</b>"@, "\n"@) =~= c12);
    }
    let c13 = seq![(Seq::<char>::empty(), p), ("<br>"@, q)];
    assert(replace_all(join(c12), "<p>"@, Seq::<char>::empty() + Seq::<char>::empty()) == join(c13) && chunks_valid(c13)) by {
        lemma_stage(c12, "<p>"@, Seq::<char>::empty(), Seq::<char>::empty());
        assert(stage_map(c12, "<p>"@, Seq::<char>::empty(), Seq::<char>::empty()) =~= c13);
    }
    let c14 = seq![(Seq::<char>::empty(), p), ("<br>"@, q)];
    assert(replace_all(join(c13), "</p>"@, Seq::<char>::empty() + "\n"@) == join(c14) && chunks_valid(c14)) by {
        lemma_stage(c13, "</p>"@, Seq::<char>::empty(), "\n"@);
        assert(stage_map(c13, "</p>"@, Seq::<char>::empty(), "\n"@) =~= c14);
    }
    let c15 = seq![(Seq::<char>::empty(), p), (Seq::<char>::empty(), "\n"@ + q)];
    assert(replace_all(join(c14), "<br>"@, Seq::<char>::empty() + "\n"@) == join(c15) && chunks_valid(c15)) by {
        lemma_stage(c14, "<br>"@, Seq::<char>::empty(), "\n"@);
        assert(stage_map(c14, "<br>"@, Seq::<char>::empty(), "\n"@) =~= c15);
    }
    let c16 = seq![(Seq::<char>::empty(), p), (Seq::<char>::empty(), "\n"@ + q)];
    assert(replace_all(join(c15), "<br/>"@, Seq::<char>::empty() + "\n"@) == join(c16) && chunks_valid(c16)) by {
        lemma_stage(c15, "<br/>"@, Seq::<char>::empty(), "\n"@);
        assert(stage_map(c15, "<br/>"@, Seq::<char>::empty(), "\n"@) =~= c16);
    }
    let c17 = seq![(Seq::<char>::empty(), p), (Seq::<char>::empty(), "\n"@ + q)];
    assert(replace_all(join(c16), "<strong>"@, "<b>"@ + Seq::<char>::empty()) == join(c17) && chunks_valid(c17)) by {
        lemma_stage(c16, "<strong>"@, "<b>"@, Seq::<char>::empty());
        assert(stage_map(c16, "<strong>"@, "<b>"@, Seq::<char>::empty()) =~= c17);
    }
    let c18 = seq![(Seq::<char>::empty(), p), (Seq::<char>::empty(), "\n"@ + q)];
    assert(replace_all(join(c17), "</strong>"@, "</b>"@ + Seq::<char>::empty()) == join(c18) && chunks_valid(c18)) by {
        lemma_stage(c17, "</strong>"@, "</b>"@, Seq::<char>::empty());
        assert(stage_map(c17, "</strong>"@, "</b>"@, Seq::<char>::empty()) =~= c18);
    }
    let c19 = seq![(Seq::<char>::empty(), p), (Seq::<char>::empty(), "\n"@ + q)];
    assert(replace_all(join(c18), "<em>"@, "<i>"@ + Seq::<char>::empty()) == join(c19) && chunks_valid(c19)) by {
        lemma_stage(c18, "<em>"@, "<i>"@, Seq::<char>::empty());
        assert(stage_map(c18, "<em>"@, "<i>"@, Seq::<char>::empty()) =~= c19);
    }
    let c20 = seq![(Seq::<char>::empty(), p), (Seq::<char>::empty(), "\n"@ + q)];
    assert(replace_all(join(c19), "</em>"@, "</i>"@ + Seq::<char>::empty()) == join(c20) && chunks_valid(c20)) by {
        lemma_stage(c19, "</em>"@, "</i>"@, Seq::<char>::empty());
        assert(stage_map(c19, "</em>"@, "</i>"@, Seq::<char>::empty()) =~= c20);
    }
    let c21 = seq![(Seq::<char>::empty(), p), (Seq::<char>::empty(), "\n"@ + q)];
    assert(replace_all(join(c20), "<div>"@, Seq::<char>::empty() + Seq::<char>::empty()) == join(c21) && chunks_valid(c21)) by {
        lemma_stage(c20, "<div>"@, Seq::<char>::empty(), Seq::<char>::empty());
        assert(stage_map(c20, "<div>"@, Seq::<char>::empty(), Seq::<char>::empty()) =~= c21);
    }
    let c22 = seq![(Seq::<char>::empty(), p), (Seq::<char>::empty(), "\n"@ + q)];
    assert(replace_all(join(c21), "</div>"@, Seq::<char>::empty() + "\n"@) == join(c22) && chunks_valid(c22)) by {
        lemma_stage(c21, "</div>"@, Seq::<char>::empty(), "\n"@);
        assert(stage_map(c21, "</div>"@, Seq::<char>::empty(), "\n"@) =~= c22);
    }
    let c23 = seq![(Seq::<char>::empty(), p), (Seq::<char>::empty(), "\n"@ + q)];
    assert(replace_all(join(c22), "<span>"@, Seq::<char>::empty() + Seq::<char>::empty()) == join(c23) && chunks_valid(c23)) by {
        lemma_stage(c22, "<span>"@, Seq::<char>::empty(), Seq::<char>::empty());
        assert(stage_map(c22, "<span>"@, Seq::<char>::empty(), Seq::<char>::empty()) =~= c23);
    }
    let c24 = seq![(Seq::<char>::empty(), p), (Seq::<char>::empty(), "\n"@ + q)];
    assert(replace_all(join(c23), "</span>"@, Seq::<char>::empty() + Seq::<char>::empty()) == join(c24) && chunks_valid(c24)) by {
        lemma_stage(c23, "</span>"@, Seq::<char>::empty(), Seq::<char>::empty());
        assert(stage_map(c23, "</span>"@, Seq::<char>::empty(), Seq::<char>::empty()) =~= c24);
    }
    lemma_join2((Seq::<char>::empty(), p), (Seq::<char>::empty(), "\n"@ + q));
    let fin = join(c24);
    assert(sanitized(p + "<br>"@ + q) == trim(replace_all(fin, "\n\n\n"@, "\n\n"@)));
    assert(fin =~= p + "\n"@ + q);
    assert(no_nl(p));
    assert(fin =~= p + "\n"@ + q);
    lemma_no_triple_break(p, q, "\n\n"@);
    assert(fin[0] == p[0]);
    assert(fin.last() == q.last());
    lemma_trim_of_trimmed(fin);
}

/// A self-closing line-break tag becomes a line break.
#[verifier::spinoff_prover]
#[verifier::rlimit(100)]
pub proof fn lemma_br_self_closing_rendered(p: Seq<char>, q: Seq<char>)
    requires
        plain_edge(p),
        plain_edge(q),
    ensures
        sanitized(p + "<br/>"@ + q) == p + "\n"@ + q,
{
    lemma_tag_literals();
    lemma_plain_free(p);
    lemma_plain_free(q);
    let c0 = seq![(Seq::<char>::empty(), p), ("<br/>"@, q)];
    assert(chunks_valid(c0));
    lemma_join2((Seq::<char>::empty(), p), ("<br/>"@, q));
    assert(join(c0) =~= p + "<br/>"@ + q);
    lemma_join_no_star(c0);
    lemma_no_star_bold(join(c0));
    let c1 = seq![(Seq::<char>::empty(), p), ("<br/>"@, q)];
    assert(replace_all(join(c0), "<ul>"@, Seq::<char>::empty() + Seq::<char>::empty()) == join(c1) && chunks_valid(c1)) by {
        lemma_stage(c0, "<ul>"@, Seq::<char>::empty(), Seq::<char>::empty());
        assert(stage_map(c0, "<ul>"@, Seq::<char>::empty(), Seq::<char>::empty()) =~= c1);
    }
    let c2 = seq![(Seq::<char>::empty(), p), ("<br/>"@, q)];
    assert(replace_all(join(c1), "</ul>"@, Seq::<char>::empty() + "\n"@) == join(c2) && chunks_valid(c2)) by {
        lemma_stage(c1, "</ul>"@, Seq::<char>::empty(), "\n"@);
        assert(stage_map(c1, "</ul>"@, Seq::<char>::empty(), "\n"@) =~= c2);
    }
    let c3 = seq![(Seq::<char>::empty(), p), ("<br/>"@, q)];
    assert(replace_all(join(c2), "<ol>"@, Seq::<char>::empty() + Seq::<char>::empty()) == join(c3) && chunks_valid(c3)) by {
        lemma_stage(c2, "<ol>"@, Seq::<char>::empty(), Seq::<char>::empty());
        assert(stage_map(c2, "<ol>"@, Seq::<char>::empty(), Seq::<char>::empty()) =~= c3);
    }
    let c4 = seq![(Seq::<char>::empty(), p), ("<br/>"@, q)];
    assert(replace_all(join(c3), "</ol>"@, Seq::<char>::empty() + "\n"@) == join(c4) && chunks_valid(c4)) by {
        lemma_stage(c3, "</ol>"@, Seq::<char>::empty(), "\n"@);
        assert(stage_map(c3, "</ol>"@, Seq::<char>::empty(), "\n"@) =~= c4);
    }
    let c5 = seq![(Seq::<char>::empty(), p), ("<br/>"@, q)];
    assert(replace_all(join(c4), "<li>"@, Seq::<char>::empty() + "• "@) == join(c5) && chunks_valid(c5)) by {
        lemma_stage(c4, "<li>"@, Seq::<char>::empty(), "• "@);
        assert(stage_map(c4, "<li>"@, Seq::<char>::empty(), "• "@) =~= c5);
    }
    let c6 = seq![(Seq::<char>::empty(), p), ("<br/>"@, q)];
    assert(replace_all(join(c5), "</li>"@, Seq::<char>::empty() + "\n"@) == join(c6) && chunks_valid(c6)) by {
        lemma_stage(c5, "</li>"@, Seq::<char>::empty(), "\n"@);
        assert(stage_map(c5, "</li>"@, Seq::<char>::empty(), "\n"@) =~= c6);
    }
    let c7 = seq![(Seq::<char>::empty(), p), ("<br/>"@, q)];
    assert(replace_all(join(c6), "<h1>"@, "<b>"@ + Seq::<char>::empty()) == join(c7) && chunks_valid(c7)) by {
        lemma_stage(c6, "<h1>"@, "<b>"@, Seq::<char>::empty());
        assert(stage_map(c6, "<h1>"@, "<b>"@, Seq::<char>::empty()) =~= c7);
    }
    let c8 = seq![(Seq::<char>::empty(), p), ("<br/>"@, q)];
    assert(replace_all(join(c7), "</h1>"@, "</b>"@ + "\n"@) == join(c8) && chunks_valid(c8)) by {
        lemma_stage(c7, "</h1>"@, "</b>"@, "\n"@);
        assert(stage_map(c7, "</h1>"@, "</b>"@, "\n"@) =~= c8);
    }
    let c9 = seq![(Seq::<char>::empty(), p), ("<br/>"@, q)];
    assert(replace_all(join(c8), "<h2>"@, "<b>"@ + Seq::<char>::empty()) == join(c9) && chunks_valid(c9)) by {
        lemma_stage(c8, "<h2>"@, "<b>"@, Seq::<char>::empty());
        assert(stage_map(c8, "<h2>"@, "<b>"@, Seq::<char>::empty()) =~= c9);
    }
    let c10 = seq![(Seq::<char>::empty(), p), ("<br/>"@, q)];
    assert(replace_all(join(c9), "</h2>"@, "</b>"@ + "\n"@) == join(c10) && chunks_valid(c10)) by {
        lemma_stage(c9, "</h2>"@, "</b>"@, "\n"@);
        assert(stage_map(c9, "</h2>"@, "</b>"@, "\n"@) =~= c10);
    }
    let c11 = seq![(Seq::<char>::empty(), p), ("<br/>"@, q)];
    assert(replace_all(join(c10), "<h3>"@, "<b>"@ + Seq::<char>::empty()) == join(c11) && chunks_valid(c11)) by {
        lemma_stage(c10, "<h3>"@, "<b>"@, Seq::<char>::empty());
        assert(stage_map(c10, "<h3>"@, "<b>"@, Seq::<char>::empty()) =~= c11);
    }
    let c12 = seq![(Seq::<char>::empty(), p), ("<br/>"@, q)];
    assert(replace_all(join(c11), "</h3>"@, "</b>"@ + "\n"@) == join(c12) && chunks_valid(c12)) by {
        lemma_stage(c11, "</h3>"@, "</b>"@, "\n"@);
        assert(stage_map(c11, "</h3>"@, "</b>"@, "\n"@) =~= c12);
    }
    let c13 = seq![(Seq::<char>::empty(), p), ("<br/>"@, q)];
    assert(replace_all(join(c12), "<p>"@, Seq::<char>::empty() + Seq::<char>::empty()) == join(c13) && chunks_valid(c13)) by {
        lemma_stage(c12, "<p>"@, Seq::<char>::empty(), Seq::<char>::empty());
        assert(stage_map(c12, "<p>"@, Seq::<char>::empty(), Seq::<char>::empty()) =~= c13);
    }
    let c14 = seq![(Seq::<char>::empty(), p), ("<br/>"@, q)];
    assert(replace_all(join(c13), "</p>"@, Seq::<char>::empty() + "\n"@) == join(c14) && chunks_valid(c14)) by {
        lemma_stage(c13, "</p>"@, Seq::<char>::empty(), "\n"@);
        assert(stage_map(c13, "</p>"@, Seq::<char>::empty(), "\n"@) =~= c14);
    }
    let c15 = seq![(Seq::<char>::empty(), p), ("<br/>"@, q)];
    assert(replace_all(join(c14), "<br>"@, Seq::<char>::empty() + "\n"@) == join(c15) && chunks_valid(c15)) by {
        lemma_stage(c14, "<br>"@, Seq::<char>::empty(), "\n"@);
        assert(stage_map(c14, "<br>"@, Seq::<char>::empty(), "\n"@) =~= c15);
    }
    let c16 = seq![(Seq::<char>::empty(), p), (Seq::<char>::empty(), "\n"@ + q)];
    assert(replace_all(join(c15), "<br/>"@, Seq::<char>::empty() + "\n"@) == join(c16) && chunks_valid(c16)) by {
        lemma_stage(c15, "<br/>"@, Seq::<char>::empty(), "\n"@);
        assert(stage_map(c15, "<br/>"@, Seq::<char>::empty(), "\n"@) =~= c16);
    }
    let c17 = seq![(Seq::<char>::empty(), p), (Seq::<char>::empty(), "\n"@ + q)];
    assert(replace_all(join(c16), "<strong>"@, "<b>"@ + Seq::<char>::empty()) == join(c17) && chunks_valid(c17)) by {
        lemma_stage(c16, "<strong>"@, "<b>"@, Seq::<char>::empty());
        assert(stage_map(c16, "<strong>"@, "<b>"@, Seq::<char>::empty()) =~= c17);
    }
    let c18 = seq![(Seq::<char>::empty(), p), (Seq::<char>::empty(), "\n"@ + q)];
    assert(replace_all(join(c17), "</strong>"@, "</b>"@ + Seq::<char>::empty()) == join(c18) && chunks_valid(c18)) by {
        lemma_stage(c17, "</strong>"@, "</b>"@, Seq::<char>::empty());
        assert(stage_map(c17, "</strong>"@, "</b>"@, Seq::<char>::empty()) =~= c18);
    }
    let c19 = seq![(Seq::<char>::empty(), p), (Seq::<char>::empty(), "\n"@ + q)];
    assert(replace_all(join(c18), "<em>"@, "<i>"@ + Seq::<char>::empty()) == join(c19) && chunks_valid(c19)) by {
        lemma_stage(c18, "<em>"@, "<i>"@, Seq::<char>::empty());
        assert(stage_map(c18, "<em>"@, "<i>"@, Seq::<char>::empty()) =~= c19);
    }
    let c20 = seq![(Seq::<char>::empty(), p), (Seq::<char>::empty(), "\n"@ + q)];
    assert(replace_all(join(c19), "</em>"@, "</i>"@ + Seq::<char>::empty()) == join(c20) && chunks_valid(c20)) by {
        lemma_stage(c19, "</em>"@, "</i>"@, Seq::<char>::empty());
        assert(stage_map(c19, "</em>"@, "</i>"@, Seq::<char>::empty()) =~= c20);
    }
    let c21 = seq![(Seq::<char>::empty(), p), (Seq::<char>::empty(), "\n"@ + q)];
    assert(replace_all(join(c20), "<div>"@, Seq::<char>::empty() + Seq::<char>::empty()) == join(c21) && chunks_valid(c21)) by {
        lemma_stage(c20, "<div>"@, Seq::<char>::empty(), Seq::<char>::empty());
        assert(stage_map(c20, "<div>"@, Seq::<char>::empty(), Seq::<char>::empty()) =~= c21);
    }
    let c22 = seq![(Seq::<char>::empty(), p), (Seq::<char>::empty(), "\n"@ + q)];
    assert(replace_all(join(c21), "</div>"@, Seq::<char>::empty() + "\n"@) == join(c22) && chunks_valid(c22)) by {
        lemma_stage(c21, "</div>"@, Seq::<char>::empty(), "\n"@);
        assert(stage_map(c21, "</div>"@, Seq::<char>::empty(), "\n"@) =~= c22);
    }
    let c23 = seq![(Seq::<char>::empty(), p), (Seq::<char>::empty(), "\n"@ + q)];
    assert(replace_all(join(c22), "<span>"@, Seq::<char>::empty() + Seq::<char>::empty()) == join(c23) && chunks_valid(c23)) by {
        lemma_stage(c22, "<span>"@, Seq::<char>::empty(), Seq::<char>::empty());
        assert(stage_map(c22, "<span>"@, Seq::<char>::empty(), Seq::<char>::empty()) =~= c23);
    }
    let c24 = seq![(Seq::<char>::empty(), p), (Seq::<char>::empty(), "\n"@ + q)];
    assert(replace_all(join(c23), "</span>"@, Seq::<char>::empty() + Seq::<char>::empty()) == join(c24) && chunks_valid(c24)) by {
        lemma_stage(c23, "</span>"@, Seq::<char>::empty(), Seq::<char>::empty());
        assert(stage_map(c23, "</span>"@, Seq::<char>::empty(), Seq::<char>::empty()) =~= c24);
    }
    lemma_join2((Seq::<char>::empty(), p), (Seq::<char>::empty(), "\n"@ + q));
    let fin = join(c24);
    assert(sanitized(p + "<br/>"@ + q) == trim(replace_all(fin, "\n\n\n"@, "\n\n"@)));
    assert(fin =~= p + "\n"@ + q);
    assert(no_nl(p));
    assert(fin =~= p + "\n"@ + q);
    lemma_no_triple_break(p, q, "\n\n"@);
    assert(fin[0] == p[0]);
    assert(fin.last() == q.last());
    lemma_trim_of_trimmed(fin);
}

/// Markdown bold text becomes HTML bold text: `**T**` becomes `<b>T</b>`.
#[verifier::spinoff_prover]
#[verifier::rlimit(100)]
pub proof fn lemma_bold_rendered(p: Seq<char>, t: Seq<char>, q: Seq<char>)
    requires
        p.len() == 0 || plain_edge(p),
        plain(t),
        plain_edge(q),
    ensures
        sanitized(p + "**"@ + t + "**"@ + q) == p + "<b>"@ + t + "</b>"@ + q,
{
    lemma_tag_literals();
    lemma_plain_free(p);
    lemma_plain_free(t);
    lemma_plain_free(q);
    let c0 = seq![(Seq::<char>::empty(), p), ("<b>"@, t), ("</b>"@, q)];
    assert(chunks_valid(c0));
    lemma_join3((Seq::<char>::empty(), p), ("<b>"@, t), ("</b>"@, q));
    assert(join(c0) =~= p + "<b>"@ + t + "</b>"@ + q);
    lemma_bold_pair(p, t, q);
    assert(convert_bold(p + "**"@ + t + "**"@ + q) == join(c0));
    let c1 = seq![(Seq::<char>::empty(), p), ("<b>"@, t), ("</b>"@, q)];
    assert(replace_all(join(c0), "<ul>"@, Seq::<char>::empty() + Seq::<char>::empty()) == join(c1) && chunks_valid(c1)) by {
        lemma_stage(c0, "<ul>"@, Seq::<char>::empty(), Seq::<char>::empty());
        assert(stage_map(c0, "<ul>"@, Seq::<char>::empty(), Seq::<char>::empty()) =~= c1);
    }
    let c2 = seq![(Seq::<char>::empty(), p), ("<b>"@, t), ("</b>"@, q)];
    assert(replace_all(join(c1), "</ul>"@, Seq::<char>::empty() + "\n"@) == join(c2) && chunks_valid(c2)) by {
        lemma_stage(c1, "</ul>"@, Seq::<char>::empty(), "\n"@);
        assert(stage_map(c1, "</ul>"@, Seq::<char>::empty(), "\n"@) =~= c2);
    }
    let c3 = seq![(Seq::<char>::empty(), p), ("<b>"@, t), ("</b>"@, q)];
    assert(replace_all(join(c2), "<ol>"@, Seq::<char>::empty() + Seq::<char>::empty()) == join(c3) && chunks_valid(c3)) by {
        lemma_stage(c2, "<ol>"@, Seq::<char>::empty(), Seq::<char>::empty());
        assert(stage_map(c2, "<ol>"@, Seq::<char>::empty(), Seq::<char>::empty()) =~= c3);
    }
    let c4 = seq![(Seq::<char>::empty(), p), ("<b>"@, t), ("</b>"@, q)];
    assert(replace_all(join(c3), "</ol>"@, Seq::<char>::empty() + "\n"@) == join(c4) && chunks_valid(c4)) by {
        lemma_stage(c3, "</ol>"@, Seq::<char>::empty(), "\n"@);
        assert(stage_map(c3, "</ol>"@, Seq::<char>::empty(), "\n"@) =~= c4);
    }
    let c5 = seq![(Seq::<char>::empty(), p), ("<b>"@, t), ("</b>"@, q)];
    assert(replace_all(join(c4), "<li>"@, Seq::<char>::empty() + "• "@) == join(c5) && chunks_valid(c5)) by {
        lemma_stage(c4, "<li>"@, Seq::<char>::empty(), "• "@);
        assert(stage_map(c4, "<li>"@, Seq::<char>::empty(), "• "@) =~= c5);
    }
    let c6 = seq![(Seq::<char>::empty(), p), ("<b>"@, t), ("</b>"@, q)];
    assert(replace_all(join(c5), "</li>"@, Seq::<char>::empty() + "\n"@) == join(c6) && chunks_valid(c6)) by {
        lemma_stage(c5, "</li>"@, Seq::<char>::empty(), "\n"@);
        assert(stage_map(c5, "</li>"@, Seq::<char>::empty(), "\n"@) =~= c6);
    }
    let c7 = seq![(Seq::<char>::empty(), p), ("<b>"@, t), ("</b>"@, q)];
    assert(replace_all(join(c6), "<h1>"@, "<b>"@ + Seq::<char>::empty()) == join(c7) && chunks_valid(c7)) by {
        lemma_stage(c6, "<h1>"@, "<b>"@, Seq::<char>::empty());
        assert(stage_map(c6, "<h1>"@, "<b>"@, Seq::<char>::empty()) =~= c7);
    }
    let c8 = seq![(Seq::<char>::empty(), p), ("<b>"@, t), ("</b>"@, q)];
    assert(replace_all(join(c7), "</h1>"@, "</b>"@ + "\n"@) == join(c8) && chunks_valid(c8)) by {
        lemma_stage(c7, "</h1>"@, "</b>"@, "\n"@);
        assert(stage_map(c7, "</h1>"@, "</b>"@, "\n"@) =~= c8);
    }
    let c9 = seq![(Seq::<char>::empty(), p), ("<b>"@, t), ("</b>"@, q)];
    assert(replace_all(join(c8), "<h2>"@, "<b>"@ + Seq::<char>::empty()) == join(c9) && chunks_valid(c9)) by {
        lemma_stage(c8, "<h2>"@, "<b>"@, Seq::<char>::empty());
        assert(stage_map(c8, "<h2>"@, "<b>"@, Seq::<char>::empty()) =~= c9);
    }
    let c10 = seq![(Seq::<char>::empty(), p), ("<b>"@, t), ("</b>"@, q)];
    assert(replace_all(join(c9), "</h2>"@, "</b>"@ + "\n"@) == join(c10) && chunks_valid(c10)) by {
        lemma_stage(c9, "</h2>"@, "</b>"@, "\n"@);
        assert(stage_map(c9, "</h2>"@, "</b>"@, "\n"@) =~= c10);
    }
    let c11 = seq![(Seq::<char>::empty(), p), ("<b>"@, t), ("</b>"@, q)];
    assert(replace_all(join(c10), "<h3>"@, "<b>"@ + Seq::<char>::empty()) == join(c11) && chunks_valid(c11)) by {
        lemma_stage(c10, "<h3>"@, "<b>"@, Seq::<char>::empty());
        assert(stage_map(c10, "<h3>"@, "<b>"@, Seq::<char>::empty()) =~= c11);
    }
    let c12 = seq![(Seq::<char>::empty(), p), ("<b>"@, t), ("</b>"@, q)];
    assert(replace_all(join(c11), "</h3>"@, "</b>"@ + "\n"@) == join(c12) && chunks_valid(c12)) by {
        lemma_stage(c11, "</h3>"@, "</b>"@, "\n"@);
        assert(stage_map(c11, "</h3>"@, "</b>"@, "\n"@) =~= c12);
    }
    let c13 = seq![(Seq::<char>::empty(), p), ("<b>"@, t), ("</b>"@, q)];
    assert(replace_all(join(c12), "<p>"@, Seq::<char>::empty() + Seq::<char>::empty()) == join(c13) && chunks_valid(c13)) by {
        lemma_stage(c12, "<p>"@, Seq::<char>::empty(), Seq::<char>::empty());
        assert(stage_map(c12, "<p>"@, Seq::<char>::empty(), Seq::<char>::empty()) =~= c13);
    }
    let c14 = seq![(Seq::<char>::empty(), p), ("<b>"@, t), ("</b>"@, q)];
    assert(replace_all(join(c13), "</p>"@, Seq::<char>::empty() + "\n"@) == join(c14) && chunks_valid(c14)) by {
        lemma_stage(c13, "</p>"@, Seq::<char>::empty(), "\n"@);
        assert(stage_map(c13, "</p>"@, Seq::<char>::empty(), "\n"@) =~= c14);
    }
    let c15 = seq![(Seq::<char>::empty(), p), ("<b>"@, t), ("</b>"@, q)];
    assert(replace_all(join(c14), "<br>"@, Seq::<char>::empty() + "\n"@) == join(c15) && chunks_valid(c15)) by {
        lemma_stage(c14, "<br>"@, Seq::<char>::empty(), "\n"@);
        assert(stage_map(c14, "<br>"@, Seq::<char>::empty(), "\n"@) =~= c15);
    }
    let c16 = seq![(Seq::<char>::empty(), p), ("<b>"@, t), ("</b>"@, q)];
    assert(replace_all(join(c15), "<br/>"@, Seq::<char>::empty() + "\n"@) == join(c16) && chunks_valid(c16)) by {
        lemma_stage(c15, "<br/>"@, Seq::<char>::empty(), "\n"@);
        assert(stage_map(c15, "<br/>"@, Seq::<char>::empty(), "\n"@) =~= c16);
    }
    let c17 = seq![(Seq::<char>::empty(), p), ("<b>"@, t), ("</b>"@, q)];
    assert(replace_all(join(c16), "<strong>"@, "<b>"@ + Seq::<char>::empty()) == join(c17) && chunks_valid(c17)) by {
        lemma_stage(c16, "<strong>"@, "<b>"@, Seq::<char>::empty());
        assert(stage_map(c16, "<strong>"@, "<b>"@, Seq::<char>::empty()) =~= c17);
    }
    let c18 = seq![(Seq::<char>::empty(), p), ("<b>"@, t), ("</b>"@, q)];
    assert(replace_all(join(c17), "</strong>"@, "</b>"@ + Seq::<char>::empty()) == join(c18) && chunks_valid(c18)) by {
        lemma_stage(c17, "</strong>"@, "</b>"@, Seq::<char>::empty());
        assert(stage_map(c17, "</strong>"@, "</b>"@, Seq::<char>::empty()) =~= c18);
    }
    let c19 = seq![(Seq::<char>::empty(), p), ("<b>"@, t), ("</b>"@, q)];
    assert(replace_all(join(c18), "<em>"@, "<i>"@ + Seq::<char>::empty()) == join(c19) && chunks_valid(c19)) by {
        lemma_stage(c18, "<em>"@, "<i>"@, Seq::<char>::empty());
        assert(stage_map(c18, "<em>"@, "<i>"@, Seq::<char>::empty()) =~= c19);
    }
    let c20 = seq![(Seq::<char>::empty(), p), ("<b>"@, t), ("</b>"@, q)];
    assert(replace_all(join(c19), "</em>"@, "</i>"@ + Seq::<char>::empty()) == join(c20) && chunks_valid(c20)) by {
        lemma_stage(c19, "</em>"@, "</i>"@, Seq::<char>::empty());
        assert(stage_map(c19, "</em>"@, "</i>"@, Seq::<char>::empty()) =~= c20);
    }
    let c21 = seq![(Seq::<char>::empty(), p), ("<b>"@, t), ("</b>"@, q)];
    assert(replace_all(join(c20), "<div>"@, Seq::<char>::empty() + Seq::<char>::empty()) == join(c21) && chunks_valid(c21)) by {
        lemma_stage(c20, "<div>"@, Seq::<char>::empty(), Seq::<char>::empty());
        assert(stage_map(c20, "<div>"@, Seq::<char>::empty(), Seq::<char>::empty()) =~= c21);
    }
    let c22 = seq![(Seq::<char>::empty(), p), ("<b>"@, t), ("</b>"@, q)];
    assert(replace_all(join(c21), "</div>"@, Seq::<char>::empty() + "\n"@) == join(c22) && chunks_valid(c22)) by {
        lemma_stage(c21, "</div>"@, Seq::<char>::empty(), "\n"@);
        assert(stage_map(c21, "</div>"@, Seq::<char>::empty(), "\n"@) =~= c22);
    }
    let c23 = seq![(Seq::<char>::empty(), p), ("<b>"@, t), ("</b>"@, q)];
    assert(replace_all(join(c22), "<span>"@, Seq::<char>::empty() + Seq::<char>::empty()) == join(c23) && chunks_valid(c23)) by {
        lemma_stage(c22, "<span>"@, Seq::<char>::empty(), Seq::<char>::empty());
        assert(stage_map(c22, "<span>"@, Seq::<char>::empty(), Seq::<char>::empty()) =~= c23);
    }
    let c24 = seq![(Seq::<char>::empty(), p), ("<b>"@, t), ("</b>"@, q)];
    assert(replace_all(join(c23), "</span>"@, Seq::<char>::empty() + Seq::<char>::empty()) == join(c24) && chunks_valid(c24)) by {
        lemma_stage(c23, "</span>"@, Seq::<char>::empty(), Seq::<char>::empty());
        assert(stage_map(c23, "</span>"@, Seq::<char>::empty(), Seq::<char>::empty()) =~= c24);
    }
    lemma_join3((Seq::<char>::empty(), p), ("<b>"@, t), ("</b>"@, q));
    let fin = join(c24);
    assert(sanitized(p + "**"@ + t + "**"@ + q) == trim(replace_all(fin, "\n\n\n"@, "\n\n"@)));
    assert(fin =~= p + "<b>"@ + t + "</b>"@ + q);
    assert(no_nl(p + "<b>"@ + t + "</b>"@));
    lemma_no_triple_break(p + "<b>"@ + t + "</b>"@, q, "\n\n"@);
    if p.len() > 0 {
        assert(fin[0] == p[0]);
    } else {
        assert(fin[0] == "<b>"@[0]);
    }
    assert(fin.last() == q.last());
    lemma_trim_of_trimmed(fin);
}

/// A last `**` with no partner opens bold text: `P**Q` becomes `P<b>Q`.
#[verifier::spinoff_prover]
#[verifier::rlimit(100)]
pub proof fn lemma_unpaired_bold_rendered(p: Seq<char>, q: Seq<char>)
    requires
        plain_edge(p),
        plain_edge(q),
    ensures
        sanitized(p + "**"@ + q) == p + "<b>"@ + q,
{
    lemma_tag_literals();
    lemma_plain_free(p);
    lemma_plain_free(q);
    let c0 = seq![(Seq::<char>::empty(), p), ("<b>"@, q)];
    assert(chunks_valid(c0));
    lemma_join2((Seq::<char>::empty(), p), ("<b>"@, q));
    assert(join(c0) =~= p + "<b>"@ + q);
    lemma_bold_unpaired(p, q);
    assert(convert_bold(p + "**"@ + q) == join(c0));
    let c1 = seq![(Seq::<char>::empty(), p), ("<b>"@, q)];
    assert(replace_all(join(c0), "<ul>"@, Seq::<char>::empty() + Seq::<char>::empty()) == join(c1) && chunks_valid(c1)) by {
        lemma_stage(c0, "<ul>"@, Seq::<char>::empty(), Seq::<char>::empty());
        assert(stage_map(c0, "<ul>"@, Seq::<char>::empty(), Seq::<char>::empty()) =~= c1);
    }
    let c2 = seq![(Seq::<char>::empty(), p), ("<b>"@, q)];
    assert(replace_all(join(c1), "</ul>"@, Seq::<char>::empty() + "\n"@) == join(c2) && chunks_valid(c2)) by {
        lemma_stage(c1, "</ul>"@, Seq::<char>::empty(), "\n"@);
        assert(stage_map(c1, "</ul>"@, Seq::<char>::empty(), "\n"@) =~= c2);
    }
    let c3 = seq![(Seq::<char>::empty(), p), ("<b>"@, q)];
    assert(replace_all(join(c2), "<ol>"@, Seq::<char>::empty() + Seq::<char>::empty()) == join(c3) && chunks_valid(c3)) by {
        lemma_stage(c2, "<ol>"@, Seq::<char>::empty(), Seq::<char>::empty());
        assert(stage_map(c2, "<ol>"@, Seq::<char>::empty(), Seq::<char>::empty()) =~= c3);
    }
    let c4 = seq![(Seq::<char>::empty(), p), ("<b>"@, q)];
    assert(replace_all(join(c3), "</ol>"@, Seq::<char>::empty() + "\n"@) == join(c4) && chunks_valid(c4)) by {
        lemma_stage(c3, "</ol>"@, Seq::<char>::empty(), "\n"@);
        assert(stage_map(c3, "</ol>"@, Seq::<char>::empty(), "\n"@) =~= c4);
    }
    let c5 = seq![(Seq::<char>::empty(), p), ("<b>"@, q)];
    assert(replace_all(join(c4), "<li>"@, Seq::<char>::empty() + "• "@) == join(c5) && chunks_valid(c5)) by {
        lemma_stage(c4, "<li>"@, Seq::<char>::empty(), "• "@);
        assert(stage_map(c4, "<li>"@, Seq::<char>::empty(), "• "@) =~= c5);
    }
    let c6 = seq![(Seq::<char>::empty(), p), ("<b>"@, q)];
    assert(replace_all(join(c5), "</li>"@, Seq::<char>::empty() + "\n"@) == join(c6) && chunks_valid(c6)) by {
        lemma_stage(c5, "</li>"@, Seq::<char>::empty(), "\n"@);
        assert(stage_map(c5, "</li>"@, Seq::<char>::empty(), "\n"@) =~= c6);
    }
    let c7 = seq![(Seq::<char>::empty(), p), ("<b>"@, q)];
    assert(replace_all(join(c6), "<h1>"@, "<b>"@ + Seq::<char>::empty()) == join(c7) && chunks_valid(c7)) by {
        lemma_stage(c6, "<h1>"@, "<b>"@, Seq::<char>::empty());
        assert(stage_map(c6, "<h1>"@, "<b>"@, Seq::<char>::empty()) =~= c7);
    }
    let c8 = seq![(Seq::<char>::empty(), p), ("<b>"@, q)];
    assert(replace_all(join(c7), "</h1>"@, "</b>"@ + "\n"@) == join(c8) && chunks_valid(c8)) by {
        lemma_stage(c7, "</h1>"@, "</b>"@, "\n"@);
        assert(stage_map(c7, "</h1>"@, "</b>"@, "\n"@) =~= c8);
    }
    let c9 = seq![(Seq::<char>::empty(), p), ("<b>"@, q)];
    assert(replace_all(join(c8), "<h2>"@, "<b>"@ + Seq::<char>::empty()) == join(c9) && chunks_valid(c9)) by {
        lemma_stage(c8, "<h2>"@, "<b>"@, Seq::<char>::empty());
        assert(stage_map(c8, "<h2>"@, "<b>"@, Seq::<char>::empty()) =~= c9);
    }
    let c10 = seq![(Seq::<char>::empty(), p), ("<b>"@, q)];
    assert(replace_all(join(c9), "</h2>"@, "</b>"@ + "\n"@) == join(c10) && chunks_valid(c10)) by {
        lemma_stage(c9, "</h2>"@, "</b>"@, "\n"@);
        assert(stage_map(c9, "</h2>"@, "</b>"@, "\n"@) =~= c10);
    }
    let c11 = seq![(Seq::<char>::empty(), p), ("<b>"@, q)];
    assert(replace_all(join(c10), "<h3>"@, "<b>"@ + Seq::<char>::empty()) == join(c11) && chunks_valid(c11)) by {
        lemma_stage(c10, "<h3>"@, "<b>"@, Seq::<char>::empty());
        assert(stage_map(c10, "<h3>"@, "<b>"@, Seq::<char>::empty()) =~= c11);
    }
    let c12 = seq![(Seq::<char>::empty(), p), ("<b>"@, q)];
    assert(replace_all(join(c11), "</h3>"@, "</b>"@ + "\n"@) == join(c12) && chunks_valid(c12)) by {
        lemma_stage(c11, "</h3>"@, "</b>"@, "\n"@);
        assert(stage_map(c11, "</h3>"@, "</b>"@, "\n"@) =~= c12);
    }
    let c13 = seq![(Seq::<char>::empty(), p), ("<b>"@, q)];
    assert(replace_all(join(c12), "<p>"@, Seq::<char>::empty() + Seq::<char>::empty()) == join(c13) && chunks_valid(c13)) by {
        lemma_stage(c12, "<p>"@, Seq::<char>::empty(), Seq::<char>::empty());
        assert(stage_map(c12, "<p>"@, Seq::<char>::empty(), Seq::<char>::empty()) =~= c13);
    }
    let c14 = seq![(Seq::<char>::empty(), p), ("<b>"@, q)];
    assert(replace_all(join(c13), "</p>"@, Seq::<char>::empty() + "\n"@) == join(c14) && chunks_valid(c14)) by {
        lemma_stage(c13, "</p>"@, Seq::<char>::empty(), "\n"@);
        assert(stage_map(c13, "</p>"@, Seq::<char>::empty(), "\n"@) =~= c14);
    }
    let c15 = seq![(Seq::<char>::empty(), p), ("<b>"@, q)];
    assert(replace_all(join(c14), "<br>"@, Seq::<char>::empty() + "\n"@) == join(c15) && chunks_valid(c15)) by {
        lemma_stage(c14, "<br>"@, Seq::<char>::empty(), "\n"@);
        assert(stage_map(c14, "<br>"@, Seq::<char>::empty(), "\n"@) =~= c15);
    }
    let c16 = seq![(Seq::<char>::empty(), p), ("<b>"@, q)];
    assert(replace_all(join(c15), "<br/>"@, Seq::<char>::empty() + "\n"@) == join(c16) && chunks_valid(c16)) by {
        lemma_stage(c15, "<br/>"@, Seq::<char>::empty(), "\n"@);
        assert(stage_map(c15, "<br/>"@, Seq::<char>::empty(), "\n"@) =~= c16);
    }
    let c17 = seq![(Seq::<char>::empty(), p), ("<b>"@, q)];
    assert(replace_all(join(c16), "<strong>"@, "<b>"@ + Seq::<char>::empty()) == join(c17) && chunks_valid(c17)) by {
        lemma_stage(c16, "<strong>"@, "<b>"@, Seq::<char>::empty());
        assert(stage_map(c16, "<strong>"@, "<b>"@, Seq::<char>::empty()) =~= c17);
    }
    let c18 = seq![(Seq::<char>::empty(), p), ("<b>"@, q)];
    assert(replace_all(join(c17), "</strong>"@, "</b>"@ + Seq::<char>::empty()) == join(c18) && chunks_valid(c18)) by {
        lemma_stage(c17, "</strong>"@, "</b>"@, Seq::<char>::empty());
        assert(stage_map(c17, "</strong>"@, "</b>"@, Seq::<char>::empty()) =~= c18);
    }
    let c19 = seq![(Seq::<char>::empty(), p), ("<b>"@, q)];
    assert(replace_all(join(c18), "<em>"@, "<i>"@ + Seq::<char>::empty()) == join(c19) && chunks_valid(c19)) by {
        lemma_stage(c18, "<em>"@, "<i>"@, Seq::<char>::empty());
        assert(stage_map(c18, "<em>"@, "<i>"@, Seq::<char>::empty()) =~= c19);
    }
    let c20 = seq![(Seq::<char>::empty(), p), ("<b>"@, q)];
    assert(replace_all(join(c19), "</em>"@, "</i>"@ + Seq::<char>::empty()) == join(c20) && chunks_valid(c20)) by {
        lemma_stage(c19, "</em>"@, "</i>"@, Seq::<char>::empty());
        assert(stage_map(c19, "</em>"@, "</i>"@, Seq::<char>::empty()) =~= c20);
    }
    let c21 = seq![(Seq::<char>::empty(), p), ("<b>"@, q)];
    assert(replace_all(join(c20), "<div>"@, Seq::<char>::empty() + Seq::<char>::empty()) == join(c21) && chunks_valid(c21)) by {
        lemma_stage(c20, "<div>"@, Seq::<char>::empty(), Seq::<char>::empty());
        assert(stage_map(c20, "<div>"@, Seq::<char>::empty(), Seq::<char>::empty()) =~= c21);
    }
    let c22 = seq![(Seq::<char>::empty(), p), ("<b>"@, q)];
    assert(replace_all(join(c21), "</div>"@, Seq::<char>::empty() + "\n"@) == join(c22) && chunks_valid(c22)) by {
        lemma_stage(c21, "</div>"@, Seq::<char>::empty(), "\n"@);
        assert(stage_map(c21, "</div>"@, Seq::<char>::empty(), "\n"@) =~= c22);
    }
    let c23 = seq![(Seq::<char>::empty(), p), ("<b>"@, q)];
    assert(replace_all(join(c22), "<span>"@, Seq::<char>::empty() + Seq::<char>::empty()) == join(c23) && chunks_valid(c23)) by {
        lemma_stage(c22, "<span>"@, Seq::<char>::empty(), Seq::<char>::empty());
        assert(stage_map(c22, "<span>"@, Seq::<char>::empty(), Seq::<char>::empty()) =~= c23);
    }
    let c24 = seq![(Seq::<char>::empty(), p), ("<b>"@, q)];
    assert(replace_all(join(c23), "</span>"@, Seq::<char>::empty() + Seq::<char>::empty()) == join(c24) && chunks_valid(c24)) by {
        lemma_stage(c23, "</span>"@, Seq::<char>::empty(), Seq::<char>::empty());
        assert(stage_map(c23, "</span>"@, Seq::<char>::empty(), Seq::<char>::empty()) =~= c24);
    }
    lemma_join2((Seq::<char>::empty(), p), ("<b>"@, q));
    let fin = join(c24);
    assert(sanitized(p + "**"@ + q) == trim(replace_all(fin, "\n\n\n"@, "\n\n"@)));
    assert(fin =~= p + "<b>"@ + q);
    assert(no_nl(p + "<b>"@));
    lemma_no_triple_break(p + "<b>"@, q, "\n\n"@);
    assert(fin[0] == p[0]);
    assert(fin.last() == q.last());
    lemma_trim_of_trimmed(fin);
}

} // verus!

verus! {

/// Three line breaks in a row are shortened to two: `P`, three line breaks
/// and `Q` become `P`, two line breaks and `Q`.
#[verifier::spinoff_prover]
#[verifier::rlimit(100)]
pub proof fn lemma_triple_break_shortened(p: Seq<char>, q: Seq<char>)
    requires
        plain_edge(p),
        plain_edge(q),
    ensures
        sanitized(p + "\n\n\n"@ + q) == p + "\n\n"@ + q,
{
    lemma_tag_literals();
    reveal_strlit("\n\n\n");
    reveal_strlit("\n\n");
    reveal_strlit("");
    reveal_strlit("\n");
    reveal_strlit("• ");
    reveal_strlit("</b>\n");
    reveal_strlit("<b>");
    reveal_strlit("</b>");
    reveal_strlit("<i>");
    reveal_strlit("</i>");
    let nl3 = "\n\n\n"@;
    let s = p + nl3 + q;
    assert forall|i: int| 0 <= i < s.len() implies #[trigger] s[i] != '<' && s[i] != '*' by {
        if i < p.len() {
            assert(s[i] == p[i]);
        } else if i < p.len() + 3 {
            assert(s[i] == nl3[i - p.len()]);
        } else {
            assert(s[i] == q[i - p.len() - 3]);
        }
    }
    assert(free(s));
    lemma_no_star_bold(s);
    lemma_free_text_unchanged(s, "<ul>"@, ""@);
    lemma_free_text_unchanged(s, "</ul>"@, "\n"@);
    lemma_free_text_unchanged(s, "<ol>"@, ""@);
    lemma_free_text_unchanged(s, "</ol>"@, "\n"@);
    lemma_free_text_unchanged(s, "<li>"@, "• "@);
    lemma_free_text_unchanged(s, "</li>"@, "\n"@);
    lemma_free_text_unchanged(s, "<h1>"@, "<b>"@);
    lemma_free_text_unchanged(s, "</h1>"@, "</b>\n"@);
    lemma_free_text_unchanged(s, "<h2>"@, "<b>"@);
    lemma_free_text_unchanged(s, "</h2>"@, "</b>\n"@);
    lemma_free_text_unchanged(s, "<h3>"@, "<b>"@);
    lemma_free_text_unchanged(s, "</h3>"@, "</b>\n"@);
    lemma_free_text_unchanged(s, "<p>"@, ""@);
    lemma_free_text_unchanged(s, "</p>"@, "\n"@);
    lemma_free_text_unchanged(s, "<br>"@, "\n"@);
    lemma_free_text_unchanged(s, "<br/>"@, "\n"@);
    lemma_free_text_unchanged(s, "<strong>"@, "<b>"@);
    lemma_free_text_unchanged(s, "</strong>"@, "</b>"@);
    lemma_free_text_unchanged(s, "<em>"@, "<i>"@);
    lemma_free_text_unchanged(s, "</em>"@, "</i>"@);
    lemma_free_text_unchanged(s, "<div>"@, ""@);
    lemma_free_text_unchanged(s, "</div>"@, "\n"@);
    lemma_free_text_unchanged(s, "<span>"@, ""@);
    lemma_free_text_unchanged(s, "</span>"@, ""@);
    let rest = nl3 + q;
    assert(s =~= p + rest);
    lemma_first_char_absent(p, rest, nl3);
    lemma_replace_past_prefix(p, rest, nl3, "\n\n"@);
    assert(rest.take(3) =~= nl3);
    assert(rest.skip(3) =~= q);
    lemma_first_char_absent(q, Seq::<char>::empty(), nl3);
    assert(q + Seq::<char>::empty() =~= q);
    lemma_replace_past_prefix(q, Seq::<char>::empty(), nl3, "\n\n"@);
    assert(replace_all(Seq::<char>::empty(), nl3, "\n\n"@) == Seq::<char>::empty());
    let fin = p + "\n\n"@ + q;
    assert(replace_all(s, nl3, "\n\n"@) =~= fin);
    assert(fin[0] == p[0]);
    assert(fin.last() == q.last());
    lemma_trim_of_trimmed(fin);
}

} // verus!

verus! {

/// Spaces around the reply are removed: spaces, plain text `P` and spaces
/// become `P`.
#[verifier::spinoff_prover]
#[verifier::rlimit(100)]
pub proof fn lemma_surrounding_spaces_removed(w1: Seq<char>, p: Seq<char>, w2: Seq<char>)
    requires
        forall|i: int| 0 <= i < w1.len() ==> #[trigger] w1[i] == ' ',
        plain_edge(p),
        forall|i: int| 0 <= i < w2.len() ==> #[trigger] w2[i] == ' ',
    ensures
        sanitized(w1 + p + w2) == p,
{
    lemma_tag_literals();
    reveal_strlit("\n\n\n");
    reveal_strlit("\n\n");
    let s = w1 + p + w2;
    assert forall|i: int| 0 <= i < s.len() implies #[trigger] s[i] != '<' && s[i] != '*' && s[i]
        != '\n' by {
        if i < w1.len() {
            assert(s[i] == w1[i]);
        } else if i < w1.len() + p.len() {
            assert(s[i] == p[i - w1.len()]);
        } else {
            assert(s[i] == w2[i - w1.len() - p.len()]);
        }
    }
    assert(free(s));
    lemma_no_star_bold(s);
    lemma_free_text_unchanged(s, "<ul>"@, ""@);
    lemma_free_text_unchanged(s, "</ul>"@, "\n"@);
    lemma_free_text_unchanged(s, "<ol>"@, ""@);
    lemma_free_text_unchanged(s, "</ol>"@, "\n"@);
    lemma_free_text_unchanged(s, "<li>"@, "• "@);
    lemma_free_text_unchanged(s, "</li>"@, "\n"@);
    lemma_free_text_unchanged(s, "<h1>"@, "<b>"@);
    lemma_free_text_unchanged(s, "</h1>"@, "</b>\n"@);
    lemma_free_text_unchanged(s, "<h2>"@, "<b>"@);
    lemma_free_text_unchanged(s, "</h2>"@, "</b>\n"@);
    lemma_free_text_unchanged(s, "<h3>"@, "<b>"@);
    lemma_free_text_unchanged(s, "</h3>"@, "</b>\n"@);
    lemma_free_text_unchanged(s, "<p>"@, ""@);
    lemma_free_text_unchanged(s, "</p>"@, "\n"@);
    lemma_free_text_unchanged(s, "<br>"@, "\n"@);
    lemma_free_text_unchanged(s, "<br/>"@, "\n"@);
    lemma_free_text_unchanged(s, "<strong>"@, "<b>"@);
    lemma_free_text_unchanged(s, "</strong>"@, "</b>"@);
    lemma_free_text_unchanged(s, "<em>"@, "<i>"@);
    lemma_free_text_unchanged(s, "</em>"@, "</i>"@);
    lemma_free_text_unchanged(s, "<div>"@, ""@);
    lemma_free_text_unchanged(s, "</div>"@, "\n"@);
    lemma_free_text_unchanged(s, "<span>"@, ""@);
    lemma_free_text_unchanged(s, "</span>"@, ""@);
    lemma_first_char_absent(s, Seq::<char>::empty(), "\n\n\n"@);
    assert(s + Seq::<char>::empty() =~= s);
    lemma_replace_past_prefix(s, Seq::<char>::empty(), "\n\n\n"@, "\n\n"@);
    assert(replace_all(Seq::<char>::empty(), "\n\n\n"@, "\n\n"@) == Seq::<char>::empty());
    assert(replace_all(s, "\n\n\n"@, "\n\n"@) == s);
    assert(s =~= w1 + (p + w2));
    assert((p + w2)[0] == p[0]);
    lemma_trim_start_spaces(w1, p + w2);
    lemma_trim_end_spaces(p, w2);
}

} // verus!
