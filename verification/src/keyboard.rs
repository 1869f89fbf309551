//! The keyboard of buttons that the bot shows under its welcome message.
use vstd::prelude::*;
use crate::config::Locale;
use crate::string_map::{keys_distinct, lemma_entries_map};
use crate::text::{from_chars, lemma_replace_suffix, occurs_in, replace_all, replace_all_exec, to_chars};

verus! {

broadcast use vstd::seq_lib::group_to_multiset_ensures;

/// A button that shows `text` and sends `callback_data` when pressed.
pub struct KeyboardButton {
    pub text: String,
    pub callback_data: String,
}

impl View for KeyboardButton {
    type V = (Seq<char>, Seq<char>);

    open spec fn view(&self) -> (Seq<char>, Seq<char>) {
        (self.text@, self.callback_data@)
    }
}

/// `a` comes before `b` in the order of `String`'s `Ord`: character by
/// character, by code point, a proper prefix first.
pub open spec fn text_lt(a: Seq<char>, b: Seq<char>) -> bool
    decreases a.len(),
{
    if a.len() == 0 {
        b.len() > 0
    } else if b.len() == 0 {
        false
    } else if a[0] != b[0] {
        (a[0] as int) < (b[0] as int)
    } else {
        text_lt(a.skip(1), b.skip(1))
    }
}

/// The buttons are ordered by their texts.
pub open spec fn sorted_by_text(s: Seq<(Seq<char>, Seq<char>)>) -> bool {
    forall|i: int, j: int| 0 <= i < j < s.len() ==> !text_lt(s[j].0, s[i].0)
}

/// The button of the button entry `(key, label)`: its label, with the data of
/// the callback entry named like the key with `_button` replaced by
/// `_callback`; none when the label or that data is empty or missing.
pub open spec fn button_of(locale: &Locale, entry: (Seq<char>, Seq<char>)) -> Option<
    (Seq<char>, Seq<char>),
> {
    let cb_key = replace_all(entry.0, "_button"@, "_callback"@);
    if entry.1.len() > 0 && locale.callbacks@.contains_key(cb_key)
        && locale.callbacks@[cb_key].len() > 0 {
        Some((entry.1, locale.callbacks@[cb_key]))
    } else {
        None
    }
}

/// The buttons of the given button entries, in their order.
pub open spec fn buttons_of(locale: &Locale, entries: Seq<(Seq<char>, Seq<char>)>) -> Seq<
    (Seq<char>, Seq<char>),
>
    decreases entries.len(),
{
    if entries.len() == 0 {
        Seq::empty()
    } else {
        let init = buttons_of(locale, entries.drop_last());
        match button_of(locale, entries.last()) {
            Some(b) => init.push(b),
            None => init,
        }
    }
}

/// The sequence cut into rows of two, the last row holding one when the
/// length is odd.
pub open spec fn rows_of_two<A>(s: Seq<A>) -> Seq<Seq<A>>
    decreases s.len(),
{
    if s.len() == 0 {
        Seq::empty()
    } else if s.len() <= 2 {
        seq![s]
    } else {
        seq![s.take(2)] + rows_of_two(s.skip(2))
    }
}

/// The rows of buttons, each button by its text and data.
pub open spec fn rows_view(rows: Seq<Vec<KeyboardButton>>) -> Seq<Seq<(Seq<char>, Seq<char>)>> {
    rows.map_values(|row: Vec<KeyboardButton>| row@.map_values(|b: KeyboardButton| b@))
}

proof fn lemma_text_lt_asymmetric(a: Seq<char>, b: Seq<char>)
    ensures
        text_lt(a, b) ==> !text_lt(b, a),
        !text_lt(a, a),
    decreases a.len(),
{
    if a.len() > 0 {
        lemma_text_lt_asymmetric(a.skip(1), a.skip(1));
        if b.len() > 0 {
            lemma_text_lt_asymmetric(a.skip(1), b.skip(1));
        }
    }
}

proof fn lemma_text_lt_total(a: Seq<char>, b: Seq<char>)
    ensures
        a != b ==> text_lt(a, b) || text_lt(b, a),
    decreases a.len(),
{
    if a.len() > 0 && b.len() > 0 {
        lemma_text_lt_total(a.skip(1), b.skip(1));
        if a[0] == b[0] && a.skip(1) == b.skip(1) {
            assert(a =~= seq![a[0]] + a.skip(1));
            assert(b =~= seq![b[0]] + b.skip(1));
        }
    } else if a.len() == 0 && b.len() == 0 {
        assert(a =~= b);
    }
}

proof fn lemma_text_lt_transitive(a: Seq<char>, b: Seq<char>, c: Seq<char>)
    requires
        text_lt(a, b),
        text_lt(b, c),
    ensures
        text_lt(a, c),
    decreases a.len(),
{
    if a.len() > 0 && b.len() > 0 && c.len() > 0 {
        if a[0] == b[0] && b[0] == c[0] {
            lemma_text_lt_transitive(a.skip(1), b.skip(1), c.skip(1));
        }
    }
}

/// Whether `a` comes before `b`.
pub fn text_less(a: &String, b: &String) -> (res: bool)
    ensures
        res == text_lt(a@, b@),
{
    let x = to_chars(a.as_str());
    let y = to_chars(b.as_str());
    let n = x.len();
    let m = y.len();
    let mut i: usize = 0;
    assert(x@.skip(0) =~= x@);
    assert(y@.skip(0) =~= y@);
    while i < n && i < m
        invariant
            n == x.len(),
            m == y.len(),
            i <= n,
            i <= m,
            x@ == a@,
            y@ == b@,
            text_lt(x@.skip(i as int), y@.skip(i as int)) == text_lt(a@, b@),
        decreases n - i,
    {
        if x[i] != y[i] {
            assert(x@.skip(i as int)[0] == x@[i as int]);
            assert(y@.skip(i as int)[0] == y@[i as int]);
            return x[i] < y[i];
        }
        assert(x@.skip(i as int).skip(1) =~= x@.skip(i + 1));
        assert(y@.skip(i as int).skip(1) =~= y@.skip(i + 1));
        i = i + 1;
    }
    i < m
}

fn copy_button(b: &KeyboardButton) -> (res: KeyboardButton)
    ensures
        res@ == b@,
{
    KeyboardButton { text: b.text.clone(), callback_data: b.callback_data.clone() }
}

/// Puts `b` among the sorted buttons, after every button whose text does not
/// come after its own.
fn insert_sorted(out: &mut Vec<KeyboardButton>, b: KeyboardButton)
    requires
        sorted_by_text(old(out)@.map_values(|x: KeyboardButton| x@)),
    ensures
        sorted_by_text(final(out)@.map_values(|x: KeyboardButton| x@)),
        final(out)@.map_values(|x: KeyboardButton| x@).to_multiset() == old(out)@.map_values(
            |x: KeyboardButton| x@,
        ).to_multiset().insert(b@),
{
    let ghost before = out@.map_values(|x: KeyboardButton| x@);
    let mut p: usize = out.len();
    while p > 0 && text_less(&b.text, &out[p - 1].text)
        invariant
            p <= out.len(),
            out@.map_values(|x: KeyboardButton| x@) == before,
            sorted_by_text(before),
            forall|k: int| p <= k < before.len() ==> text_lt(b@.0, #[trigger] before[k].0),
        decreases p,
    {
        p = p - 1;
    }
    out.insert(p, b);
    let ghost after = out@.map_values(|x: KeyboardButton| x@);
    assert(after =~= before.insert(p as int, b@));
    assert forall|i: int, j: int| 0 <= i < j < after.len() implies !text_lt(after[j].0, after[i].0) by {
        if j < p {
        } else if i > p {
            assert(after[i] == before[i - 1]);
            assert(after[j] == before[j - 1]);
        } else if i == p {
            assert(after[j] == before[j - 1]);
            lemma_text_lt_asymmetric(b@.0, before[j - 1].0);
        } else {
            // i < p == j
            assert(after[i] == before[i]);
            let last = before[p - 1].0;
            assert(!text_lt(b@.0, last));
            if text_lt(b@.0, before[i].0) {
                if i < p - 1 {
                    assert(!text_lt(last, before[i].0));
                    lemma_text_lt_total(last, before[i].0);
                    if before[i].0 != last {
                        lemma_text_lt_transitive(b@.0, before[i].0, last);
                    }
                }
            }
        }
    }
}

/// The buttons of the locale's button entries, ordered by their texts.
fn sorted_buttons(locale: &Locale) -> (res: Vec<KeyboardButton>)
    ensures
        sorted_by_text(res@.map_values(|x: KeyboardButton| x@)),
        res@.map_values(|x: KeyboardButton| x@).to_multiset() == buttons_of(
            locale,
            locale.buttons.entries(),
        ).to_multiset(),
{
    let n = locale.buttons.len();
    let mut out: Vec<KeyboardButton> = Vec::new();
    let mut i: usize = 0;
    proof {
        reveal_strlit("_button");
    }
    let pat = to_chars("_button");
    let rep = to_chars("_callback");
    assert(out@.map_values(|x: KeyboardButton| x@) =~= Seq::<(Seq<char>, Seq<char>)>::empty());
    assert(locale.buttons.entries().take(0) =~= Seq::<(Seq<char>, Seq<char>)>::empty());
    while i < n
        invariant
            n == locale.buttons.entries().len(),
            i <= n,
            pat@ == "_button"@,
            pat@.len() > 0,
            rep@ == "_callback"@,
            sorted_by_text(out@.map_values(|x: KeyboardButton| x@)),
            out@.map_values(|x: KeyboardButton| x@).to_multiset() == buttons_of(
                locale,
                locale.buttons.entries().take(i as int),
            ).to_multiset(),
        decreases n - i,
    {
        let entry = locale.buttons.entry(i);
        assert(locale.buttons.entries().take(i + 1).drop_last() =~= locale.buttons.entries().take(
            i as int,
        ));
        let key = to_chars(entry.0.as_str());
        let cb_key = from_chars(&replace_all_exec(&key, &pat, &rep));
        if entry.1.as_str().unicode_len() > 0 {
            match locale.callbacks.get(&cb_key) {
                Some(data) => {
                    if data.as_str().unicode_len() > 0 {
                        let b = KeyboardButton { text: entry.1.clone(), callback_data: data.clone() };
                        insert_sorted(&mut out, b);
                    }
                },
                None => {},
            }
        }
        i = i + 1;
    }
    assert(locale.buttons.entries().take(n as int) =~= locale.buttons.entries());
    out
}

proof fn lemma_rows_flatten<A>(s: Seq<A>)
    ensures
        rows_of_two(s).flatten() == s,
    decreases s.len(),
{
    if s.len() == 0 {
    } else if s.len() <= 2 {
        assert(seq![s].drop_first() =~= Seq::<Seq<A>>::empty());
        assert(seq![s].drop_first().flatten() =~= Seq::<A>::empty());
        assert(s + Seq::<A>::empty() =~= s);
    } else {
        lemma_rows_flatten(s.skip(2));
        let r = seq![s.take(2)] + rows_of_two(s.skip(2));
        assert(r.first() == s.take(2));
        assert(r.drop_first() =~= rows_of_two(s.skip(2)));
        assert(s.take(2) + s.skip(2) =~= s);
    }
}

/// The rows of the keyboard: the buttons of the locale's button entries,
/// ordered by their texts, two to a row.
///
/// Among buttons with equal texts any order may come out, as when the entries
/// are walked in a hash map's order.
pub fn build_keyboard(locale: &Locale) -> (res: Vec<Vec<KeyboardButton>>)
    ensures
        rows_view(res@) == rows_of_two(rows_view(res@).flatten()),
        sorted_by_text(rows_view(res@).flatten()),
        rows_view(res@).flatten().to_multiset() == buttons_of(
            locale,
            locale.buttons.entries(),
        ).to_multiset(),
{
    let sorted = sorted_buttons(locale);
    let ghost s = sorted@.map_values(|x: KeyboardButton| x@);
    let n = sorted.len();
    let mut rows: Vec<Vec<KeyboardButton>> = Vec::new();
    let mut i: usize = 0;
    assert(s.skip(0) =~= s);
    while i < n
        invariant
            n == sorted.len(),
            s == sorted@.map_values(|x: KeyboardButton| x@),
            i <= n,
            rows_view(rows@) + rows_of_two(s.skip(i as int)) == rows_of_two(s),
        decreases n - i,
    {
        let mut row: Vec<KeyboardButton> = Vec::new();
        row.push(copy_button(&sorted[i]));
        let ghost t = s.skip(i as int);
        let ghost old_rows = rows@;
        if i + 1 < n {
            row.push(copy_button(&sorted[i + 1]));
            let ghost head = t.take(2);
            proof {
                if t.len() > 2 {
                    assert(rows_of_two(t) == seq![head] + rows_of_two(t.skip(2)));
                    assert(t.skip(2) =~= s.skip(i + 2));
                } else {
                    assert(s.skip(i + 2) =~= Seq::<(Seq<char>, Seq<char>)>::empty());
                    assert(t =~= head);
                }
                assert(rows_of_two(t) == seq![head] + rows_of_two(s.skip(i + 2)));
                assert(row@.map_values(|x: KeyboardButton| x@) =~= head);
            }
            rows.push(row);
            proof {
                assert(rows@ == old_rows.push(row));
                assert(rows_view(rows@) =~= rows_view(old_rows).push(head));
                assert(rows_view(old_rows).push(head) + rows_of_two(s.skip(i + 2)) =~= rows_view(
                    old_rows,
                ) + (seq![head] + rows_of_two(s.skip(i + 2))));
            }
            i = i + 2;
        } else {
            proof {
                assert(row@.map_values(|x: KeyboardButton| x@) =~= t);
                assert(s.skip(i + 1) =~= Seq::<(Seq<char>, Seq<char>)>::empty());
                assert(rows_of_two(t) == seq![t]);
            }
            rows.push(row);
            proof {
                assert(rows@ == old_rows.push(row));
                assert(rows_view(rows@) =~= rows_view(old_rows).push(t));
                assert(rows_view(old_rows).push(t) + rows_of_two(s.skip(i + 1)) =~= rows_view(
                    old_rows,
                ) + seq![t]);
            }
            i = i + 1;
        }
    }
    proof {
        assert(s.skip(n as int) =~= Seq::<(Seq<char>, Seq<char>)>::empty());
        assert(rows_view(rows@) =~= rows_of_two(s));
        lemma_rows_flatten(s);
    }
    rows
}

} // verus!

verus! {

/// Every row holds two buttons, but the last, which may hold one.
pub proof fn lemma_rows_hold_two<A>(s: Seq<A>)
    ensures
        forall|i: int| 0 <= i < rows_of_two(s).len() ==> 1 <= #[trigger] rows_of_two(s)[i].len() <= 2,
        forall|i: int| 0 <= i < rows_of_two(s).len() - 1 ==> #[trigger] rows_of_two(s)[i].len() == 2,
        rows_of_two(s).len() == (s.len() + 1) / 2,
    decreases s.len(),
{
    if s.len() > 2 {
        lemma_rows_hold_two(s.skip(2));
        let r = rows_of_two(s);
        assert forall|i: int| 0 < i < r.len() implies r[i] == rows_of_two(s.skip(2))[i - 1] by {}
    }
}

} // verus!

verus! {

/// No two buttons show the same text.
pub open spec fn texts_distinct(s: Seq<(Seq<char>, Seq<char>)>) -> bool {
    forall|i: int, j: int| 0 <= i < j < s.len() ==> s[i].0 != s[j].0
}

proof fn lemma_buttons_of_contains(
    locale: &Locale,
    entries: Seq<(Seq<char>, Seq<char>)>,
    b: (Seq<char>, Seq<char>),
)
    ensures
        buttons_of(locale, entries).contains(b) <==> exists|i: int|
            0 <= i < entries.len() && button_of(locale, entries[i]) == Some(b),
    decreases entries.len(),
{
    if entries.len() > 0 {
        let init = entries.drop_last();
        lemma_buttons_of_contains(locale, init, b);
        let bi = buttons_of(locale, init);
        let n = entries.len() - 1;
        assert(entries[n] == entries.last());
        match button_of(locale, entries.last()) {
            Some(x) => {
                assert(buttons_of(locale, entries) == bi.push(x));
                if bi.push(x).contains(b) {
                    let j = choose|j: int| 0 <= j < bi.push(x).len() && bi.push(x)[j] == b;
                    if j < bi.len() {
                        assert(bi[j] == b);
                        assert(bi.contains(b));
                        let i = choose|i: int| 0 <= i < init.len() && button_of(locale, init[i]) == Some(b);
                        assert(entries[i] == init[i]);
                    } else {
                        assert(button_of(locale, entries[n]) == Some(b));
                    }
                }
                if exists|i: int| 0 <= i < entries.len() && button_of(locale, entries[i]) == Some(b) {
                    let i = choose|i: int| 0 <= i < entries.len() && button_of(locale, entries[i]) == Some(b);
                    if i < n {
                        assert(init[i] == entries[i]);
                        assert(bi.contains(b));
                        let j = choose|j: int| 0 <= j < bi.len() && bi[j] == b;
                        assert(bi.push(x)[j] == b);
                    } else {
                        assert(bi.push(x)[bi.len() as int] == x);
                    }
                }
            },
            None => {
                assert(buttons_of(locale, entries) == bi);
                if exists|i: int| 0 <= i < entries.len() && button_of(locale, entries[i]) == Some(b) {
                    let i = choose|i: int| 0 <= i < entries.len() && button_of(locale, entries[i]) == Some(b);
                    if i < n {
                        assert(init[i] == entries[i]);
                    }
                }
                if bi.contains(b) {
                    let i = choose|i: int| 0 <= i < init.len() && button_of(locale, init[i]) == Some(b);
                    assert(entries[i] == init[i]);
                }
            },
        }
    }
}

/// A button comes out of a listing of the button map exactly when some key of
/// the map gives it.
proof fn lemma_button_from_map(locale: &Locale, b: (Seq<char>, Seq<char>))
    requires
        keys_distinct(locale.buttons.entries()),
    ensures
        buttons_of(locale, locale.buttons.entries()).contains(b) <==> exists|k: Seq<char>|
            locale.buttons@.contains_key(k) && button_of(locale, (k, locale.buttons@[k])) == Some(
                b,
            ),
{
    let es = locale.buttons.entries();
    lemma_buttons_of_contains(locale, es, b);
    lemma_entries_map(es);
    if buttons_of(locale, es).contains(b) {
        let i = choose|i: int| 0 <= i < es.len() && button_of(locale, es[i]) == Some(b);
        assert(locale.buttons@.contains_key(es[i].0));
        assert(locale.buttons@[es[i].0] == es[i].1);
        assert(es[i] == (es[i].0, es[i].1));
    }
    if exists|k: Seq<char>|
        locale.buttons@.contains_key(k) && button_of(locale, (k, locale.buttons@[k])) == Some(b) {
        let k = choose|k: Seq<char>|
            locale.buttons@.contains_key(k) && button_of(locale, (k, locale.buttons@[k])) == Some(b);
        let i = choose|i: int| 0 <= i < es.len() && es[i].0 == k;
        assert(locale.buttons@[es[i].0] == es[i].1);
        assert(es[i] == (k, locale.buttons@[k]));
    }
}

/// A sequence with the same buttons as one whose texts are distinct has
/// distinct texts too.
proof fn lemma_same_buttons_distinct(
    s: Seq<(Seq<char>, Seq<char>)>,
    t: Seq<(Seq<char>, Seq<char>)>,
)
    requires
        texts_distinct(t),
        s.to_multiset() == t.to_multiset(),
    ensures
        texts_distinct(s),
        forall|x: (Seq<char>, Seq<char>)| s.contains(x) <==> t.contains(x),
{
    broadcast use vstd::multiset::group_multiset_axioms;

    s.to_multiset_ensures();
    t.to_multiset_ensures();
    assert(t.no_duplicates());
    t.lemma_multiset_has_no_duplicates();
    s.lemma_multiset_has_no_duplicates_conv();
    assert forall|i: int, j: int| 0 <= i < j < s.len() implies s[i].0 != s[j].0 by {
        assert(s.to_multiset().count(s[i]) > 0);
        assert(s.to_multiset().count(s[j]) > 0);
        let p = choose|p: int| 0 <= p < t.len() && t[p] == s[i];
        let q = choose|q: int| 0 <= q < t.len() && t[q] == s[j];
        if p < q {
        } else if q < p {
        }
    }
    assert forall|x: (Seq<char>, Seq<char>)| s.contains(x) <==> t.contains(x) by {
        s.to_multiset_ensures();
        t.to_multiset_ensures();
        assert(s.contains(x) <==> s.to_multiset().count(x) > 0);
        assert(t.contains(x) <==> t.to_multiset().count(x) > 0);
    }
}

/// Two sequences sorted by text, each with distinct texts and holding the same
/// buttons, are equal.
proof fn lemma_sorted_distinct_unique(s: Seq<(Seq<char>, Seq<char>)>, t: Seq<(Seq<char>, Seq<char>)>)
    requires
        sorted_by_text(s),
        sorted_by_text(t),
        texts_distinct(s),
        texts_distinct(t),
        forall|x: (Seq<char>, Seq<char>)| s.contains(x) <==> t.contains(x),
    ensures
        s == t,
    decreases s.len(),
{
    if s.len() == 0 {
        if t.len() > 0 {
            assert(t.contains(t[0]));
        }
        assert(s =~= t);
    } else if t.len() == 0 {
        assert(s.contains(s[0]));
    } else {
        let a = s[0];
        let b = t[0];
        assert(t.contains(b));
        assert(s.contains(a));
        let p = choose|p: int| 0 <= p < s.len() && s[p] == b;
        let q = choose|q: int| 0 <= q < t.len() && t[q] == a;
        if p > 0 {
            assert(!text_lt(b.0, a.0));
        }
        if q > 0 {
            assert(!text_lt(a.0, b.0));
        }
        lemma_text_lt_total(a.0, b.0);
        if p > 0 {
            assert(s[p].0 != s[0].0);
            assert(a.0 != b.0);
        }
        assert(p == 0);
        assert(a == b);
        let s1 = s.drop_first();
        let t1 = t.drop_first();
        assert forall|x: (Seq<char>, Seq<char>)| s1.contains(x) <==> t1.contains(x) by {
            if s1.contains(x) {
                let i = choose|i: int| 0 <= i < s1.len() && s1[i] == x;
                assert(s[i + 1] == x);
                assert(s[i + 1].0 != s[0].0);
                assert(t.contains(x));
                let j = choose|j: int| 0 <= j < t.len() && t[j] == x;
                assert(j != 0);
                assert(t1[j - 1] == x);
            }
            if t1.contains(x) {
                let j = choose|j: int| 0 <= j < t1.len() && t1[j] == x;
                assert(t[j + 1] == x);
                assert(t[j + 1].0 != t[0].0);
                assert(s.contains(x));
                let i = choose|i: int| 0 <= i < s.len() && s[i] == x;
                assert(i != 0);
                assert(s1[i - 1] == x);
            }
        }
        lemma_sorted_distinct_unique(s1, t1);
        assert(s =~= seq![a] + s1);
        assert(t =~= seq![b] + t1);
    }
}

/// When the buttons that pass the filter show distinct texts, the keyboard
/// depends only on the contents of the button and callback maps, not on the
/// order in which their entries are stored: any two keyboards that
/// `build_keyboard` may give for locales with equal maps are equal.
///
/// `k1` and `k2` stand for the flattened rows of the two results.
pub proof fn lemma_keyboard_determined(
    l1: &Locale,
    l2: &Locale,
    k1: Seq<(Seq<char>, Seq<char>)>,
    k2: Seq<(Seq<char>, Seq<char>)>,
)
    requires
        l1.buttons@ == l2.buttons@,
        l1.callbacks@ == l2.callbacks@,
        keys_distinct(l1.buttons.entries()),
        keys_distinct(l2.buttons.entries()),
        texts_distinct(buttons_of(l1, l1.buttons.entries())),
        texts_distinct(buttons_of(l2, l2.buttons.entries())),
        sorted_by_text(k1),
        sorted_by_text(k2),
        k1.to_multiset() == buttons_of(l1, l1.buttons.entries()).to_multiset(),
        k2.to_multiset() == buttons_of(l2, l2.buttons.entries()).to_multiset(),
    ensures
        k1 == k2,
        rows_of_two(k1) == rows_of_two(k2),
{
    let b1 = buttons_of(l1, l1.buttons.entries());
    let b2 = buttons_of(l2, l2.buttons.entries());
    lemma_same_buttons_distinct(k1, b1);
    lemma_same_buttons_distinct(k2, b2);
    assert forall|x: (Seq<char>, Seq<char>)| b1.contains(x) <==> b2.contains(x) by {
        lemma_button_from_map(l1, x);
        lemma_button_from_map(l2, x);
        if exists|k: Seq<char>|
            l1.buttons@.contains_key(k) && button_of(l1, (k, l1.buttons@[k])) == Some(x) {
            let k = choose|k: Seq<char>|
                l1.buttons@.contains_key(k) && button_of(l1, (k, l1.buttons@[k])) == Some(x);
            assert(button_of(l2, (k, l2.buttons@[k])) == Some(x));
        }
        if exists|k: Seq<char>|
            l2.buttons@.contains_key(k) && button_of(l2, (k, l2.buttons@[k])) == Some(x) {
            let k = choose|k: Seq<char>|
                l2.buttons@.contains_key(k) && button_of(l2, (k, l2.buttons@[k])) == Some(x);
            assert(button_of(l1, (k, l1.buttons@[k])) == Some(x));
        }
    }
    lemma_sorted_distinct_unique(k1, k2);
}

} // verus!

verus! {

/// The button entry named `a` followed by `_button` takes its data from the
/// callback entry named `a` followed by `_callback`, with nothing else in the
/// name changed: with a non-empty label and non-empty data there it gives
/// the button (label, data), and otherwise no button.
pub proof fn lemma_button_takes_its_callback(locale: &Locale, a: Seq<char>, label: Seq<char>)
    requires
        !occurs_in(a, "_button"@),
    ensures
        button_of(locale, (a + "_button"@, label)) == if label.len() > 0
            && locale.callbacks@.contains_key(a + "_callback"@) && locale.callbacks@[a
            + "_callback"@].len() > 0 {
            Some((label, locale.callbacks@[a + "_callback"@]))
        } else {
            None
        },
{
    reveal_strlit("_button");
    assert forall|j: int| 0 < j < "_button"@.len() implies #[trigger] "_button"@[j] != "_button"@[0] by {}
    lemma_replace_suffix(a, "_button"@, "_callback"@);
}

/// Every button entry named `a` followed by `_button` with a non-empty label,
/// whose callback entry `a` followed by `_callback` holds non-empty data,
/// shows on the keyboard as (label, data). `k` stands for the buttons of the
/// rows that `build_keyboard` returns, read row by row.
pub proof fn lemma_keyboard_shows_button(
    locale: &Locale,
    a: Seq<char>,
    k: Seq<(Seq<char>, Seq<char>)>,
)
    requires
        keys_distinct(locale.buttons.entries()),
        k.to_multiset() == buttons_of(locale, locale.buttons.entries()).to_multiset(),
        !occurs_in(a, "_button"@),
        locale.buttons@.contains_key(a + "_button"@),
        locale.buttons@[a + "_button"@].len() > 0,
        locale.callbacks@.contains_key(a + "_callback"@),
        locale.callbacks@[a + "_callback"@].len() > 0,
    ensures
        k.contains((locale.buttons@[a + "_button"@], locale.callbacks@[a + "_callback"@])),
{
    let key = a + "_button"@;
    let b = (locale.buttons@[key], locale.callbacks@[a + "_callback"@]);
    lemma_button_takes_its_callback(locale, a, locale.buttons@[key]);
    assert(button_of(locale, (key, locale.buttons@[key])) == Some(b));
    lemma_button_from_map(locale, b);
    let bs = buttons_of(locale, locale.buttons.entries());
    assert(bs.contains(b));
    assert(bs.to_multiset().count(b) > 0);
    assert(k.to_multiset().count(b) > 0);
}

} // verus!

verus! {

/// Button texts are ordered as `String`s are: a text comes before every
/// longer text that starts with it, and never after a text that starts it.
pub proof fn lemma_prefix_comes_first(a: Seq<char>, b: Seq<char>)
    ensures
        text_lt(a, a + b) <==> b.len() > 0,
        !text_lt(a + b, a),
    decreases a.len(),
{
    if a.len() > 0 {
        assert((a + b)[0] == a[0]);
        assert((a + b).skip(1) =~= a.skip(1) + b);
        lemma_prefix_comes_first(a.skip(1), b);
    } else {
        assert(a + b =~= b);
    }
}

/// After a common beginning, the first character that differs decides the
/// order of two button texts, by code point.
pub proof fn lemma_first_difference_decides(
    a: Seq<char>,
    c: char,
    x: Seq<char>,
    d: char,
    y: Seq<char>,
)
    requires
        c != d,
    ensures
        text_lt(a + seq![c] + x, a + seq![d] + y) <==> (c as int) < (d as int),
    decreases a.len(),
{
    let s = a + seq![c] + x;
    let t = a + seq![d] + y;
    if a.len() > 0 {
        assert(s[0] == a[0]);
        assert(t[0] == a[0]);
        assert(s.skip(1) =~= a.skip(1) + seq![c] + x);
        assert(t.skip(1) =~= a.skip(1) + seq![d] + y);
        lemma_first_difference_decides(a.skip(1), c, x, d, y);
    } else {
        assert(s[0] == c);
        assert(t[0] == d);
    }
}

} // verus!
