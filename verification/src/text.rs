//! Character-level text operations: searching, replacing and trimming.
//!
//! A text is modelled as the sequence of its `char`s. The replacement
//! functions follow `str::replace` and `str::replacen(.., 1)`: occurrences are
//! found left to right and never overlap.
use vstd::prelude::*;

verus! {

/// `pat` occurs in `s` at position `i`.
pub open spec fn matches_at(s: Seq<char>, pat: Seq<char>, i: int) -> bool {
    &&& 0 <= i
    &&& i + pat.len() <= s.len()
    &&& s.subrange(i, i + pat.len()) == pat
}

/// `pat` occurs somewhere in `s`.
pub open spec fn occurs_in(s: Seq<char>, pat: Seq<char>) -> bool {
    exists|i: int| matches_at(s, pat, i)
}

/// Every occurrence of the non-empty `pat` in `s`, leftmost first and without
/// overlap, replaced by `rep`.
pub open spec fn replace_all(s: Seq<char>, pat: Seq<char>, rep: Seq<char>) -> Seq<char>
    recommends
        pat.len() > 0,
    decreases s.len(),
{
    if pat.len() == 0 || s.len() < pat.len() {
        s
    } else if s.take(pat.len() as int) == pat {
        rep + replace_all(s.skip(pat.len() as int), pat, rep)
    } else {
        seq![s[0]] + replace_all(s.skip(1), pat, rep)
    }
}

/// The leftmost occurrence of the non-empty `pat` in `s` replaced by `rep`;
/// `s` itself when `pat` does not occur.
pub open spec fn replace_first(s: Seq<char>, pat: Seq<char>, rep: Seq<char>) -> Seq<char>
    recommends
        pat.len() > 0,
    decreases s.len(),
{
    if pat.len() == 0 || s.len() < pat.len() {
        s
    } else if s.take(pat.len() as int) == pat {
        rep + s.skip(pat.len() as int)
    } else {
        seq![s[0]] + replace_first(s.skip(1), pat, rep)
    }
}

/// The characters with the Unicode `White_Space` property, which is what
/// `char::is_whitespace` tests.
pub open spec fn is_white_space(c: char) -> bool {
    let v = c as u32;
    ||| 0x09 <= v <= 0x0d
    ||| v == 0x20
    ||| v == 0x85
    ||| v == 0xa0
    ||| v == 0x1680
    ||| 0x2000 <= v <= 0x200a
    ||| v == 0x2028
    ||| v == 0x2029
    ||| v == 0x202f
    ||| v == 0x205f
    ||| v == 0x3000
}

/// `s` without its leading white space.
pub open spec fn trim_start(s: Seq<char>) -> Seq<char>
    decreases s.len(),
{
    if s.len() > 0 && is_white_space(s[0]) {
        trim_start(s.skip(1))
    } else {
        s
    }
}

/// `s` without its trailing white space.
pub open spec fn trim_end(s: Seq<char>) -> Seq<char>
    decreases s.len(),
{
    if s.len() > 0 && is_white_space(s.last()) {
        trim_end(s.drop_last())
    } else {
        s
    }
}

/// `s` without leading and trailing white space, as `str::trim` gives it.
pub open spec fn trim(s: Seq<char>) -> Seq<char> {
    trim_end(trim_start(s))
}

/// Neither end of `s` is white space.
pub open spec fn is_trimmed(s: Seq<char>) -> bool {
    s.len() > 0 ==> !is_white_space(s[0]) && !is_white_space(s.last())
}

/// Where `pat` does not occur, replacing it changes nothing.
pub proof fn lemma_replace_absent(s: Seq<char>, pat: Seq<char>, rep: Seq<char>)
    requires
        pat.len() > 0,
        !occurs_in(s, pat),
    ensures
        replace_all(s, pat, rep) == s,
        replace_first(s, pat, rep) == s,
    decreases s.len(),
{
    if s.len() < pat.len() {
    } else {
        if s.take(pat.len() as int) == pat {
            assert(matches_at(s, pat, 0));
        }
        let t = s.skip(1);
        assert forall|i: int| !matches_at(t, pat, i) by {
            if matches_at(t, pat, i) {
                assert(s.subrange(i + 1, i + 1 + pat.len()) =~= t.subrange(i, i + pat.len()));
                assert(matches_at(s, pat, i + 1));
            }
        }
        lemma_replace_absent(t, pat, rep);
        assert(seq![s[0]] + t =~= s);
    }
}

/// Where no occurrence of `q` starts within `a`, replacing in `a + b` keeps
/// `a` and replaces in `b`.
pub proof fn lemma_replace_past_prefix(a: Seq<char>, b: Seq<char>, q: Seq<char>, r: Seq<char>)
    requires
        q.len() > 0,
        forall|i: int| 0 <= i < a.len() ==> !matches_at(a + b, q, i),
    ensures
        replace_all(a + b, q, r) == a + replace_all(b, q, r),
        replace_first(a + b, q, r) == a + replace_first(b, q, r),
    decreases a.len(),
{
    if a.len() > 0 {
        let s = a + b;
        let a1 = a.drop_first();
        assert(s.skip(1) =~= a1 + b);
        assert forall|i: int| 0 <= i < a1.len() implies !matches_at(a1 + b, q, i) by {
            assert(!matches_at(s, q, i + 1));
            if matches_at(a1 + b, q, i) {
                assert(s.subrange(i + 1, i + 1 + q.len()) =~= (a1 + b).subrange(i, i + q.len()));
            }
        }
        lemma_replace_past_prefix(a1, b, q, r);
        if s.len() >= q.len() {
            assert(!matches_at(s, q, 0));
            assert(s.take(q.len() as int) =~= s.subrange(0, q.len() as int));
            assert(seq![s[0]] + (a1 + replace_all(b, q, r)) =~= a + replace_all(b, q, r));
            assert(seq![s[0]] + (a1 + replace_first(b, q, r)) =~= a + replace_first(b, q, r));
        } else {
            assert(replace_all(b, q, r) == b);
            assert(replace_first(b, q, r) == b);
        }
    } else {
        assert(a + b =~= b);
    }
}

/// When `pat` begins with a character found nowhere else in it and `a` holds
/// no `pat`, replacing `pat` in `a + pat` changes the final `pat` alone.
pub proof fn lemma_replace_suffix(a: Seq<char>, pat: Seq<char>, rep: Seq<char>)
    requires
        pat.len() > 0,
        forall|j: int| 0 < j < pat.len() ==> #[trigger] pat[j] != pat[0],
        !occurs_in(a, pat),
    ensures
        replace_all(a + pat, pat, rep) == a + rep,
{
    let s = a + pat;
    assert forall|i: int| 0 <= i < a.len() implies !matches_at(s, pat, i) by {
        if matches_at(s, pat, i) {
            if i + pat.len() <= a.len() {
                assert(a.subrange(i, i + pat.len()) =~= s.subrange(i, i + pat.len()));
                assert(matches_at(a, pat, i));
            } else {
                let j = a.len() - i;
                assert(s.subrange(i, i + pat.len())[j] == s[a.len() as int]);
                assert(s[a.len() as int] == pat[0]);
            }
        }
    }
    lemma_replace_past_prefix(a, pat, pat, rep);
    assert(pat.take(pat.len() as int) =~= pat);
    assert(pat.skip(pat.len() as int) =~= Seq::<char>::empty());
    assert(replace_all(Seq::<char>::empty(), pat, rep) == Seq::<char>::empty());
    assert(rep + Seq::<char>::empty() =~= rep);
}

/// The result of `trim` has no white space at either end.
pub proof fn lemma_trim_is_trimmed(s: Seq<char>)
    ensures
        is_trimmed(trim(s)),
        trim(s).len() > 0 ==> !is_white_space(trim_start(s)[0]),
{
    lemma_trim_start_first(s);
    lemma_trim_end_keeps_start(trim_start(s));
}

proof fn lemma_trim_start_first(s: Seq<char>)
    ensures
        trim_start(s).len() > 0 ==> !is_white_space(trim_start(s)[0]),
    decreases s.len(),
{
    if s.len() > 0 && is_white_space(s[0]) {
        lemma_trim_start_first(s.skip(1));
    }
}

proof fn lemma_trim_end_keeps_start(s: Seq<char>)
    requires
        s.len() > 0 ==> !is_white_space(s[0]),
    ensures
        is_trimmed(trim_end(s)),
        trim_end(s).len() > 0 ==> trim_end(s)[0] == s[0],
    decreases s.len(),
{
    if s.len() > 0 && is_white_space(s.last()) {
        if s.len() > 1 {
            lemma_trim_end_keeps_start(s.drop_last());
        }
    }
}

/// Appends a character to a `String`.
///
/// Trusted: calls `String::push`, whose documentation says that it appends the
/// given `char` to the end of the string.
#[verifier::external_body]
fn push_char(s: &mut String, c: char)
    ensures
        final(s)@ == old(s)@.push(c),
{
    s.push(c);
}

/// The characters of a string slice, in order.
pub fn to_chars(s: &str) -> (res: Vec<char>)
    ensures
        res@ == s@,
{
    let mut res: Vec<char> = Vec::new();
    for c in it: s.chars()
        invariant
            res@ == it.seq().take(it.index() as int),
            it.seq() == s@,
    {
        res.push(c);
    }
    res
}

/// The string made of the given characters.
pub fn from_chars(cs: &Vec<char>) -> (res: String)
    ensures
        res@ == cs@,
{
    let mut res = String::new();
    let n = cs.len();
    let mut i: usize = 0;
    while i < n
        invariant
            n == cs.len(),
            i <= n,
            res@ == cs@.take(i as int),
        decreases n - i,
    {
        push_char(&mut res, cs[i]);
        assert(cs@.take(i + 1) =~= cs@.take(i as int).push(cs@[i as int]));
        i = i + 1;
    }
    assert(cs@.take(n as int) =~= cs@);
    res
}

/// Appends the characters of `src` to `dst`.
fn extend_chars(dst: &mut Vec<char>, src: &Vec<char>)
    ensures
        final(dst)@ == old(dst)@ + src@,
{
    let n = src.len();
    let mut i: usize = 0;
    while i < n
        invariant
            n == src.len(),
            i <= n,
            dst@ == old(dst)@ + src@.take(i as int),
        decreases n - i,
    {
        dst.push(src[i]);
        assert(src@.take(i + 1) =~= src@.take(i as int).push(src@[i as int]));
        i = i + 1;
    }
    assert(src@.take(n as int) =~= src@);
}

/// Whether `pat` occurs in `s` at position `i`.
pub fn matches_at_exec(s: &Vec<char>, pat: &Vec<char>, i: usize) -> (res: bool)
    ensures
        res == matches_at(s@, pat@, i as int),
{
    let n = s.len();
    let m = pat.len();
    if i > n || m > n - i {
        return false;
    }
    let mut j: usize = 0;
    while j < m
        invariant
            n == s.len(),
            m == pat.len(),
            i + m <= n,
            j <= m,
            forall|k: int| 0 <= k < j ==> s@[i + k] == pat@[k],
        decreases m - j,
    {
        if s[i + j] != pat[j] {
            assert(s@.subrange(i as int, i + m)[j as int] != pat@[j as int]);
            return false;
        }
        j = j + 1;
    }
    assert(s@.subrange(i as int, i + m) =~= pat@);
    true
}

/// Whether `pat` occurs anywhere in `s`.
pub fn occurs_in_exec(s: &Vec<char>, pat: &Vec<char>) -> (res: bool)
    ensures
        res == occurs_in(s@, pat@),
{
    let n = s.len();
    let mut i: usize = 0;
    while i < n
        invariant
            n == s.len(),
            i <= n,
            forall|k: int| 0 <= k < i ==> !matches_at(s@, pat@, k),
        decreases n - i,
    {
        if matches_at_exec(s, pat, i) {
            return true;
        }
        i = i + 1;
    }
    if matches_at_exec(s, pat, n) {
        return true;
    }
    assert forall|k: int| !matches_at(s@, pat@, k) by {
        if 0 <= k < n {
        } else if k == n {
        }
    }
    false
}

proof fn lemma_skip_facts(s: Seq<char>, i: int, m: int)
    requires
        0 <= i < s.len(),
        0 < m,
    ensures
        s.skip(i)[0] == s[i],
        s.skip(i).skip(1) =~= s.skip(i + 1),
        i + m <= s.len() ==> s.skip(i).take(m) =~= s.subrange(i, i + m),
        i + m <= s.len() ==> s.skip(i).skip(m) =~= s.skip(i + m),
        s.skip(i).len() == s.len() - i,
{
}

/// Every occurrence of `pat` in `s` replaced by `rep`, as `str::replace` does.
pub fn replace_all_exec(s: &Vec<char>, pat: &Vec<char>, rep: &Vec<char>) -> (res: Vec<char>)
    requires
        pat@.len() > 0,
    ensures
        res@ == replace_all(s@, pat@, rep@),
{
    let n = s.len();
    let m = pat.len();
    let mut res: Vec<char> = Vec::new();
    let mut i: usize = 0;
    assert(s@.skip(0) =~= s@);
    while i < n
        invariant
            n == s.len(),
            m == pat.len(),
            m > 0,
            i <= n,
            res@ + replace_all(s@.skip(i as int), pat@, rep@) == replace_all(s@, pat@, rep@),
        decreases n - i,
    {
        proof {
            lemma_skip_facts(s@, i as int, m as int);
        }
        let ghost t = s@.skip(i as int);
        if matches_at_exec(s, pat, i) {
            assert(replace_all(t, pat@, rep@) == rep@ + replace_all(s@.skip(i + m), pat@, rep@));
            extend_chars(&mut res, rep);
            assert(res@ + replace_all(s@.skip(i + m), pat@, rep@) =~= replace_all(s@, pat@, rep@));
            i = i + m;
        } else {
            proof {
                if t.len() >= m {
                    assert(t.take(m as int) != pat@);
                    assert(replace_all(t, pat@, rep@) == seq![s@[i as int]] + replace_all(s@.skip(i + 1), pat@, rep@));
                } else {
                    let u = s@.skip(i + 1);
                    assert(replace_all(u, pat@, rep@) == u);
                    assert(t =~= seq![s@[i as int]] + u);
                }
            }
            res.push(s[i]);
            assert(res@ + replace_all(s@.skip(i + 1), pat@, rep@) =~= replace_all(s@, pat@, rep@));
            i = i + 1;
        }
    }
    assert(replace_all(s@.skip(n as int), pat@, rep@) =~= Seq::<char>::empty());
    assert(res@ =~= replace_all(s@, pat@, rep@));
    res
}

/// The leftmost occurrence of `pat` in `s` replaced by `rep`, as
/// `str::replacen(.., 1)` does.
pub fn replace_first_exec(s: &Vec<char>, pat: &Vec<char>, rep: &Vec<char>) -> (res: Vec<char>)
    requires
        pat@.len() > 0,
    ensures
        res@ == replace_first(s@, pat@, rep@),
{
    let n = s.len();
    let m = pat.len();
    let mut res: Vec<char> = Vec::new();
    let mut i: usize = 0;
    assert(s@.skip(0) =~= s@);
    while i < n
        invariant
            n == s.len(),
            m == pat.len(),
            m > 0,
            i <= n,
            res@ + replace_first(s@.skip(i as int), pat@, rep@) == replace_first(s@, pat@, rep@),
        decreases n - i,
    {
        proof {
            lemma_skip_facts(s@, i as int, m as int);
        }
        let ghost t = s@.skip(i as int);
        if matches_at_exec(s, pat, i) {
            let ghost before = res@;
            extend_chars(&mut res, rep);
            let mut k: usize = i + m;
            while k < n
                invariant
                    n == s.len(),
                    i + m <= k <= n,
                    res@ == before + rep@ + s@.subrange(i + m, k as int),
                decreases n - k,
            {
                res.push(s[k]);
                assert(s@.subrange(i + m, k + 1) =~= s@.subrange(i + m, k as int).push(s@[k as int]));
                k = k + 1;
            }
            assert(replace_first(t, pat@, rep@) == rep@ + s@.skip(i + m));
            assert(s@.subrange(i + m, n as int) =~= s@.skip(i + m));
            assert(res@ =~= before + replace_first(t, pat@, rep@));
            return res;
        } else {
            proof {
                if t.len() >= m {
                    assert(t.take(m as int) != pat@);
                    assert(replace_first(t, pat@, rep@) == seq![s@[i as int]] + replace_first(s@.skip(i + 1), pat@, rep@));
                } else {
                    let u = s@.skip(i + 1);
                    assert(replace_first(u, pat@, rep@) == u);
                    assert(t =~= seq![s@[i as int]] + u);
                }
            }
            res.push(s[i]);
            assert(res@ + replace_first(s@.skip(i + 1), pat@, rep@) =~= replace_first(s@, pat@, rep@));
            i = i + 1;
        }
    }
    assert(replace_first(s@.skip(n as int), pat@, rep@) =~= Seq::<char>::empty());
    assert(res@ =~= replace_first(s@, pat@, rep@));
    res
}

/// Whether `c` is white space, as `char::is_whitespace` decides it.
pub fn is_white_space_exec(c: char) -> (res: bool)
    ensures
        res == is_white_space(c),
{
    let v = c as u32;
    (0x09 <= v && v <= 0x0d) || v == 0x20 || v == 0x85 || v == 0xa0 || v == 0x1680 || (0x2000 <= v
        && v <= 0x200a) || v == 0x2028 || v == 0x2029 || v == 0x202f || v == 0x205f || v == 0x3000
}

/// `s` without leading and trailing white space, as `str::trim` gives it.
pub fn trim_exec(s: &Vec<char>) -> (res: Vec<char>)
    ensures
        res@ == trim(s@),
{
    let n = s.len();
    let mut a: usize = 0;
    assert(s@.skip(0) =~= s@);
    while a < n && is_white_space_exec(s[a])
        invariant
            n == s.len(),
            a <= n,
            trim_start(s@.skip(a as int)) == trim_start(s@),
        decreases n - a,
    {
        assert(s@.skip(a as int).skip(1) =~= s@.skip(a + 1));
        a = a + 1;
    }
    let ghost t = s@.skip(a as int);
    assert(trim_start(s@) == t) by {
        if a < n {
            assert(t[0] == s@[a as int]);
        }
    }
    let mut b: usize = n;
    assert(t =~= s@.subrange(a as int, n as int));
    while b > a && is_white_space_exec(s[b - 1])
        invariant
            n == s.len(),
            a <= b <= n,
            trim_end(s@.subrange(a as int, b as int)) == trim_end(t),
        decreases b - a,
    {
        assert(s@.subrange(a as int, b as int).drop_last() =~= s@.subrange(a as int, b - 1));
        b = b - 1;
    }
    let ghost u = s@.subrange(a as int, b as int);
    assert(trim_end(t) == u) by {
        if b > a {
            assert(u.last() == s@[b - 1]);
        }
    }
    let mut res: Vec<char> = Vec::new();
    let mut k: usize = a;
    while k < b
        invariant
            a <= k <= b <= n,
            n == s.len(),
            res@ == s@.subrange(a as int, k as int),
        decreases b - k,
    {
        res.push(s[k]);
        assert(s@.subrange(a as int, k + 1) =~= s@.subrange(a as int, k as int).push(s@[k as int]));
        k = k + 1;
    }
    res
}

} // verus!
