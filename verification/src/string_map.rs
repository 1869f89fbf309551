//! A map from strings to strings, as the bot's JSON resources hold them.
//!
//! The entries are kept in a vector in which no key occurs twice; the map is
//! viewed as a `Map` from the key's characters to the value's characters.
use vstd::prelude::*;

verus! {

/// The characters of each key and value.
pub open spec fn pairs_view(v: Seq<(String, String)>) -> Seq<(Seq<char>, Seq<char>)> {
    v.map_values(|e: (String, String)| (e.0@, e.1@))
}

/// No key occurs twice.
pub open spec fn keys_distinct(es: Seq<(Seq<char>, Seq<char>)>) -> bool {
    forall|i: int, j: int| 0 <= i < j < es.len() ==> es[i].0 != es[j].0
}

/// The map that holds each entry.
pub open spec fn entries_map(es: Seq<(Seq<char>, Seq<char>)>) -> Map<Seq<char>, Seq<char>>
    decreases es.len(),
{
    if es.len() == 0 {
        Map::empty()
    } else {
        entries_map(es.drop_last()).insert(es.last().0, es.last().1)
    }
}

/// A key is in the map of distinct entries exactly when an entry holds it,
/// and it maps to that entry's value.
pub proof fn lemma_entries_map(es: Seq<(Seq<char>, Seq<char>)>)
    requires
        keys_distinct(es),
    ensures
        entries_map(es).dom().finite(),
        entries_map(es).dom().len() == es.len(),
        forall|k: Seq<char>|
            #![trigger entries_map(es).contains_key(k)]
            entries_map(es).contains_key(k) <==> exists|i: int| 0 <= i < es.len() && es[i].0 == k,
        forall|i: int| 0 <= i < es.len() ==> #[trigger] entries_map(es)[es[i].0] == es[i].1,
    decreases es.len(),
{
    if es.len() > 0 {
        let init = es.drop_last();
        lemma_entries_map(init);
        assert forall|k: Seq<char>|
            #![trigger entries_map(es).contains_key(k)]
            entries_map(es).contains_key(k) <==> exists|i: int| 0 <= i < es.len() && es[i].0 == k by {
            if entries_map(es).contains_key(k) && k != es.last().0 {
                let i = choose|i: int| 0 <= i < init.len() && init[i].0 == k;
                assert(es[i].0 == k);
            }
            if exists|i: int| 0 <= i < es.len() && es[i].0 == k {
                let i = choose|i: int| 0 <= i < es.len() && es[i].0 == k;
                if i < init.len() {
                    assert(init[i].0 == k);
                }
            }
        }
        assert(!entries_map(init).contains_key(es.last().0)) by {
            if entries_map(init).contains_key(es.last().0) {
                let i = choose|i: int| 0 <= i < init.len() && init[i].0 == es.last().0;
                assert(es[i].0 == es[es.len() - 1].0);
            }
        }
        assert forall|i: int| 0 <= i < es.len() implies #[trigger] entries_map(es)[es[i].0]
            == es[i].1 by {
            if i < init.len() {
                assert(init[i] == es[i]);
                assert(es[i].0 != es[es.len() - 1].0);
            }
        }
    }
}

/// A map from strings to strings that holds each key once.
pub struct StringMap {
    entries: Vec<(String, String)>,
}

impl View for StringMap {
    type V = Map<Seq<char>, Seq<char>>;

    open spec fn view(&self) -> Map<Seq<char>, Seq<char>> {
        entries_map(self.entries())
    }
}

impl StringMap {
    /// The entries, in the order in which they are stored.
    pub closed spec fn entries(&self) -> Seq<(Seq<char>, Seq<char>)> {
        pairs_view(self.entries@)
    }

    #[verifier::type_invariant]
    closed spec fn wf(&self) -> bool {
        keys_distinct(self.entries())
    }

    /// The stored entries make up the map: a key is in it exactly when an
    /// entry holds it, and maps to that entry's value. The keys are distinct
    /// in every `StringMap`; `len` establishes it for a caller.
    pub proof fn lemma_view(&self)
        requires
            keys_distinct(self.entries()),
        ensures
            self@.dom().finite(),
            self@.dom().len() == self.entries().len(),
            forall|k: Seq<char>|
                #![trigger self@.contains_key(k)]
                self@.contains_key(k) <==> exists|i: int|
                    0 <= i < self.entries().len() && self.entries()[i].0 == k,
            forall|i: int|
                0 <= i < self.entries().len() ==> #[trigger] self@[self.entries()[i].0]
                    == self.entries()[i].1,
    {
        lemma_entries_map(self.entries());
    }

    /// The empty map.
    pub fn new() -> (res: StringMap)
        ensures
            res@ == Map::<Seq<char>, Seq<char>>::empty(),
            res.entries().len() == 0,
    {
        let res = StringMap { entries: Vec::new() };
        assert(res.entries() =~= Seq::<(Seq<char>, Seq<char>)>::empty());
        res
    }

    /// The map of the given entries, whose keys are distinct.
    pub fn from_distinct(entries: Vec<(String, String)>) -> (res: StringMap)
        requires
            keys_distinct(pairs_view(entries@)),
        ensures
            res.entries() == pairs_view(entries@),
            res@ == entries_map(pairs_view(entries@)),
    {
        StringMap { entries }
    }

    /// The number of keys.
    pub fn len(&self) -> (res: usize)
        ensures
            res == self.entries().len(),
            res == self@.dom().len(),
            keys_distinct(self.entries()),
            self@.dom().finite(),
            forall|k: Seq<char>|
                #![trigger self@.contains_key(k)]
                self@.contains_key(k) <==> exists|i: int|
                    0 <= i < self.entries().len() && self.entries()[i].0 == k,
            forall|i: int|
                0 <= i < self.entries().len() ==> #[trigger] self@[self.entries()[i].0]
                    == self.entries()[i].1,
    {
        proof {
            use_type_invariant(self);
            self.lemma_view();
        }
        self.entries.len()
    }

    /// The `i`-th stored entry.
    pub fn entry(&self, i: usize) -> (res: &(String, String))
        requires
            i < self.entries().len(),
        ensures
            (res.0@, res.1@) == self.entries()[i as int],
    {
        &self.entries[i]
    }

    /// The position of `key` among the stored entries.
    fn position(&self, key: &String) -> (res: Option<usize>)
        ensures
            match res {
                Some(i) => i < self.entries().len() && self.entries()[i as int].0 == key@,
                None => forall|i: int| 0 <= i < self.entries().len() ==> self.entries()[i].0 != key@,
            },
    {
        let n = self.entries.len();
        let mut i: usize = 0;
        while i < n
            invariant
                n == self.entries@.len(),
                i <= n,
                forall|j: int| 0 <= j < i ==> self.entries()[j].0 != key@,
            decreases n - i,
        {
            if self.entries[i].0 == *key {
                return Some(i);
            }
            i = i + 1;
        }
        None
    }

    /// The value that `key` maps to, if any.
    pub fn get(&self, key: &String) -> (res: Option<&String>)
        ensures
            match res {
                Some(v) => self@.contains_key(key@) && v@ == self@[key@],
                None => !self@.contains_key(key@),
            },
    {
        proof {
            use_type_invariant(self);
            self.lemma_view();
        }
        match self.position(key) {
            Some(i) => Some(&self.entries[i].1),
            None => None,
        }
    }

    /// Maps `key` to `value`, in place of any value it had.
    pub fn insert(&mut self, key: String, value: String)
        ensures
            final(self)@ == old(self)@.insert(key@, value@),
    {
        proof {
            use_type_invariant(&*self);
            self.lemma_view();
        }
        let ghost old_entries = self.entries();
        let pos = self.position(&key);
        let mut es: Vec<(String, String)> = Vec::new();
        std::mem::swap(&mut es, &mut self.entries);
        assert(pairs_view(es@) == old_entries);
        match pos {
            Some(i) => {
                es.set(i, (key, value));
                let ghost new_entries = pairs_view(es@);
                assert(new_entries =~= old_entries.update(i as int, (key@, value@)));
                assert(keys_distinct(new_entries));
                proof {
                    lemma_entries_map(new_entries);
                    lemma_entries_map(old_entries);
                    let target = entries_map(old_entries).insert(key@, value@);
                    assert forall|k: Seq<char>| #[trigger]
                        entries_map(new_entries).contains_key(k) <==> target.contains_key(k) by {
                        if entries_map(new_entries).contains_key(k) {
                            let j = choose|j: int| 0 <= j < new_entries.len() && new_entries[j].0 == k;
                            assert(old_entries[j].0 == k);
                        }
                        if entries_map(old_entries).contains_key(k) {
                            let j = choose|j: int| 0 <= j < old_entries.len() && old_entries[j].0 == k;
                            assert(new_entries[j].0 == k);
                        }
                        assert(new_entries[i as int].0 == key@);
                    }
                    assert forall|k: Seq<char>| #[trigger]
                        entries_map(new_entries).contains_key(k) implies entries_map(new_entries)[k]
                        == target[k] by {
                        let j = choose|j: int| 0 <= j < new_entries.len() && new_entries[j].0 == k;
                        assert(entries_map(new_entries)[new_entries[j].0] == new_entries[j].1);
                        if j != i {
                            assert(entries_map(old_entries)[old_entries[j].0] == old_entries[j].1);
                        }
                    }
                    assert(entries_map(new_entries) =~= target);
                }
                self.entries = es;
            },
            None => {
                es.push((key, value));
                let ghost new_entries = pairs_view(es@);
                assert(new_entries =~= old_entries.push((key@, value@)));
                assert(new_entries.drop_last() =~= old_entries);
                assert(keys_distinct(new_entries));
                self.entries = es;
            },
        }
    }

    /// Some key that maps to `value`, if any does.
    pub fn key_of_value(&self, value: &String) -> (res: Option<&String>)
        ensures
            match res {
                Some(k) => self@.contains_key(k@) && self@[k@] == value@,
                None => forall|k: Seq<char>| #[trigger] self@.contains_key(k) ==> self@[k] != value@,
            },
    {
        proof {
            use_type_invariant(self);
            self.lemma_view();
        }
        let n = self.entries.len();
        let mut i: usize = 0;
        while i < n
            invariant
                n == self.entries@.len(),
                i <= n,
                forall|j: int| 0 <= j < i ==> self.entries()[j].1 != value@,
            decreases n - i,
        {
            if self.entries[i].1 == *value {
                proof {
                    use_type_invariant(self);
                    self.lemma_view();
                    assert(self@[self.entries()[i as int].0] == self.entries()[i as int].1);
                }
                return Some(&self.entries[i].0);
            }
            i = i + 1;
        }
        assert forall|k: Seq<char>| #[trigger] self@.contains_key(k) implies self@[k] != value@ by {
            let j = choose|j: int| 0 <= j < self.entries().len() && self.entries()[j].0 == k;
            assert(self@[self.entries()[j].0] == self.entries()[j].1);
        }
        None
    }
}

} // verus!
