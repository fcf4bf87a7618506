//! A table keyed by strings, kept in string order, so that iterating it
//! visits the keys in the same order as an ordered map of `String` keys.
use vstd::prelude::*;

use crate::text::{lemma_lex_irreflexive, lemma_lex_total, lemma_lex_transitive, lex_less, same_text, text_less};

verus! {

/// Whether the keys of `entries` are strictly increasing in string order.
pub open spec fn keys_increasing<V>(entries: Seq<(Seq<char>, V)>) -> bool {
    forall|i: int, j: int|
        #![trigger entries[i], entries[j]]
        0 <= i < j < entries.len() ==> lex_less(entries[i].0, entries[j].0)
}

/// Whether `k` is a key of `entries`.
pub open spec fn has_key<V>(entries: Seq<(Seq<char>, V)>, k: Seq<char>) -> bool {
    exists|i: int| 0 <= i < entries.len() && #[trigger] entries[i].0 == k
}

/// The position of key `k` in `entries`.
pub open spec fn position_of<V>(entries: Seq<(Seq<char>, V)>, k: Seq<char>) -> int {
    choose|i: int| 0 <= i < entries.len() && #[trigger] entries[i].0 == k
}

/// The map from keys to values that `entries` describes.
pub open spec fn as_map<V>(entries: Seq<(Seq<char>, V)>) -> Map<Seq<char>, V> {
    Map::new(|k: Seq<char>| has_key(entries, k), |k: Seq<char>| entries[position_of(entries, k)].1)
}

/// Increasing keys are distinct.
pub proof fn lemma_keys_distinct<V>(entries: Seq<(Seq<char>, V)>, i: int, j: int)
    requires
        keys_increasing(entries),
        0 <= i < entries.len(),
        0 <= j < entries.len(),
        entries[i].0 == entries[j].0,
    ensures
        i == j,
{
    if i < j {
        lemma_lex_irreflexive(entries[i].0);
    } else if j < i {
        lemma_lex_irreflexive(entries[i].0);
    }
}

/// In a table with increasing keys, the key at position `i` maps to the value at `i`.
pub proof fn lemma_entry_in_map<V>(entries: Seq<(Seq<char>, V)>, i: int)
    requires
        keys_increasing(entries),
        0 <= i < entries.len(),
    ensures
        as_map(entries).contains_key(entries[i].0),
        as_map(entries)[entries[i].0] == entries[i].1,
        position_of(entries, entries[i].0) == i,
{
    let k = entries[i].0;
    assert(has_key(entries, k));
    let p = position_of(entries, k);
    lemma_keys_distinct(entries, p, i);
}

/// Entries with each key taken by its characters.
pub open spec fn keyed<V>(entries: Seq<(String, V)>) -> Seq<(Seq<char>, V)> {
    entries.map_values(|e: (String, V)| (e.0@, e.1))
}

/// The map that storing `entries` one after another gives: a later entry replaces an earlier
/// entry with the same key.
pub open spec fn stored<V>(entries: Seq<(Seq<char>, V)>) -> Map<Seq<char>, V>
    decreases entries.len(),
{
    if entries.len() == 0 {
        Map::empty()
    } else {
        stored(entries.drop_last()).insert(entries.last().0, entries.last().1)
    }
}

/// Storing entries with increasing keys one after another gives the map they describe.
pub proof fn lemma_stored_increasing<V>(entries: Seq<(Seq<char>, V)>)
    requires
        keys_increasing(entries),
    ensures
        stored(entries) == as_map(entries),
    decreases entries.len(),
{
    if entries.len() == 0 {
        assert(as_map(entries) =~= Map::<Seq<char>, V>::empty());
    } else {
        let n = entries.len() - 1;
        let front = entries.drop_last();
        assert(keys_increasing(front)) by {
            assert forall|i: int, j: int| 0 <= i < j < front.len() implies lex_less(
                #[trigger] front[i].0,
                #[trigger] front[j].0,
            ) by {
                assert(front[i] == entries[i] && front[j] == entries[j]);
            }
        }
        lemma_stored_increasing(front);
        let last = entries.last();
        lemma_entry_in_map(entries, n);
        assert forall|x: Seq<char>| #[trigger]
            as_map(entries).contains_key(x) == as_map(front).insert(last.0, last.1).contains_key(x) by {
            if has_key(entries, x) {
                let q = position_of(entries, x);
                if q < n {
                    assert(front[q].0 == x);
                }
            }
            if has_key(front, x) {
                let q = position_of(front, x);
                assert(entries[q].0 == x);
            }
        }
        assert forall|x: Seq<char>| #[trigger] as_map(entries).contains_key(x) implies as_map(entries)[x]
            == as_map(front).insert(last.0, last.1)[x] by {
            if x != last.0 {
                let q = position_of(entries, x);
                lemma_entry_in_map(entries, q);
                assert(q != n);
                assert(front[q] == entries[q]);
                lemma_entry_in_map(front, q);
            }
        }
        assert(as_map(entries) =~= as_map(front).insert(last.0, last.1));
    }
}

/// Whether `entries` lists the map `m` in increasing key order.
pub open spec fn in_key_order<V>(entries: Seq<(Seq<char>, V)>, m: Map<Seq<char>, V>) -> bool {
    keys_increasing(entries) && as_map(entries) == m
}

proof fn lemma_front_increasing<V>(entries: Seq<(Seq<char>, V)>)
    requires
        keys_increasing(entries),
        entries.len() > 0,
    ensures
        keys_increasing(entries.drop_last()),
{
    let front = entries.drop_last();
    assert forall|i: int, j: int| 0 <= i < j < front.len() implies lex_less(
        #[trigger] front[i].0,
        #[trigger] front[j].0,
    ) by {
        assert(front[i] == entries[i] && front[j] == entries[j]);
    }
}

/// Entries in increasing key order: the map of all of them is the map of all but the last,
/// with the last added under a key the others do not have.
pub proof fn lemma_map_of_last<V>(entries: Seq<(Seq<char>, V)>)
    requires
        keys_increasing(entries),
        entries.len() > 0,
    ensures
        keys_increasing(entries.drop_last()),
        !as_map(entries.drop_last()).contains_key(entries.last().0),
        as_map(entries) == as_map(entries.drop_last()).insert(entries.last().0, entries.last().1),
        forall|k: Seq<char>|
            #[trigger] as_map(entries.drop_last()).contains_key(k) ==> lex_less(k, entries.last().0),
{
    let front = entries.drop_last();
    let n = entries.len() - 1;
    lemma_front_increasing(entries);
    lemma_stored_increasing(entries);
    lemma_stored_increasing(front);
    assert forall|k: Seq<char>| #[trigger] as_map(front).contains_key(k) implies lex_less(
        k,
        entries.last().0,
    ) by {
        let q = position_of(front, k);
        assert(entries[q] == front[q]);
    }
    if as_map(front).contains_key(entries.last().0) {
        lemma_lex_irreflexive(entries.last().0);
    }
}

/// A map listed in increasing key order has as many keys as entries.
pub proof fn lemma_key_order_len<V>(entries: Seq<(Seq<char>, V)>)
    requires
        keys_increasing(entries),
    ensures
        as_map(entries).dom().finite(),
        as_map(entries).dom().len() == entries.len(),
    decreases entries.len(),
{
    if entries.len() == 0 {
        assert(as_map(entries).dom() =~= Set::<Seq<char>>::empty());
    } else {
        lemma_map_of_last(entries);
        lemma_key_order_len(entries.drop_last());
    }
}

/// A map has one listing in increasing key order.
pub proof fn lemma_key_order_unique<V>(a: Seq<(Seq<char>, V)>, b: Seq<(Seq<char>, V)>)
    requires
        keys_increasing(a),
        keys_increasing(b),
        as_map(a) == as_map(b),
    ensures
        a == b,
    decreases a.len(),
{
    lemma_key_order_len(a);
    lemma_key_order_len(b);
    if a.len() == 0 {
        assert(a =~= b);
    } else {
        lemma_map_of_last(a);
        lemma_map_of_last(b);
        let ka = a.last().0;
        let kb = b.last().0;
        if ka != kb {
            assert(as_map(a).contains_key(kb));
            assert(as_map(b).contains_key(ka));
            assert(as_map(a.drop_last()).contains_key(kb));
            assert(as_map(b.drop_last()).contains_key(ka));
            lemma_lex_transitive(ka, kb, ka);
            lemma_lex_irreflexive(ka);
        }
        assert(as_map(a.drop_last()) =~= as_map(a).remove(ka));
        assert(as_map(b.drop_last()) =~= as_map(b).remove(kb));
        lemma_key_order_unique(a.drop_last(), b.drop_last());
        assert(a.last().1 == as_map(a)[ka]);
        assert(b.last().1 == as_map(b)[kb]);
        assert(a =~= a.drop_last().push(a.last()));
        assert(b =~= b.drop_last().push(b.last()));
    }
}

/// A table of values keyed by strings, with keys kept in increasing string order.
pub struct StringTable<V> {
    entries: Vec<(String, V)>,
}

impl<V> StringTable<V> {
    /// The entries in key order, each key taken by its characters.
    pub closed spec fn entries_view(&self) -> Seq<(Seq<char>, V)> {
        self.entries@.map_values(|e: (String, V)| (e.0@, e.1))
    }

    /// The table as a map from keys to values.
    pub open spec fn view(&self) -> Map<Seq<char>, V> {
        as_map(self.entries_view())
    }

    /// The table's invariant: keys strictly increase.
    pub open spec fn wf(&self) -> bool {
        keys_increasing(self.entries_view())
    }

    /// An empty table.
    pub fn new() -> (t: Self)
        ensures
            t.wf(),
            t.entries_view() == Seq::<(Seq<char>, V)>::empty(),
            t@ == Map::<Seq<char>, V>::empty(),
    {
        let t = StringTable { entries: Vec::new() };
        assert(t.entries_view() =~= Seq::<(Seq<char>, V)>::empty());
        assert(t@ =~= Map::<Seq<char>, V>::empty());
        t
    }

    /// A table holding `entries`, stored one after another (a later entry replaces an earlier
    /// entry with the same key).
    pub fn from_entries(entries: Vec<(String, V)>) -> (t: Self)
        ensures
            t.wf(),
            t@ == stored(entries@.map_values(|e: (String, V)| (e.0@, e.1))),
    {
        let ghost keyed = entries@.map_values(|e: (String, V)| (e.0@, e.1));
        let mut t = StringTable::new();
        for e in it: entries
            invariant
                t.wf(),
                it.seq() == entries@,
                keyed == entries@.map_values(|e: (String, V)| (e.0@, e.1)),
                t@ == stored(keyed.take(it.index() as int)),
        {
            let ghost i = it.index() as int;
            let (key, value) = e;
            t.insert(key, value);
            proof {
                assert(keyed.take(i + 1).drop_last() =~= keyed.take(i));
            }
        }
        assert(keyed.take(keyed.len() as int) =~= keyed);
        t
    }

    /// The entries in key order, taking the table apart.
    pub fn into_entries(self) -> (entries: Vec<(String, V)>)
        ensures
            keyed(entries@) == self.entries_view(),
    {
        let entries = self.entries;
        assert(keyed(entries@) =~= self.entries_view());
        entries
    }

    /// The number of entries.
    pub fn len(&self) -> (n: usize)
        ensures
            n == self.entries_view().len(),
    {
        self.entries.len()
    }

    /// The entries in key order.
    pub fn entries(&self) -> (r: &Vec<(String, V)>)
        ensures
            r@.len() == self.entries_view().len(),
            forall|i: int|
                0 <= i < r@.len() ==> (#[trigger] r@[i]).0@ == self.entries_view()[i].0 && r@[i].1
                    == self.entries_view()[i].1,
    {
        &self.entries
    }

    /// Locates `key`: `Ok` with its position, or `Err` with the position where it belongs.
    fn find(&self, key: &str) -> (r: Result<usize, usize>)
        requires
            self.wf(),
        ensures
            match r {
                Ok(i) => i < self.entries_view().len() && self.entries_view()[i as int].0 == key@,
                Err(p) => {
                    &&& p <= self.entries_view().len()
                    &&& forall|j: int|
                        0 <= j < p ==> lex_less(#[trigger] self.entries_view()[j].0, key@)
                    &&& forall|j: int|
                        p <= j < self.entries_view().len() ==> lex_less(
                            key@,
                            #[trigger] self.entries_view()[j].0,
                        )
                },
            },
    {
        let n = self.entries.len();
        let mut i: usize = 0;
        while i < n && text_less(self.entries[i].0.as_str(), key)
            invariant
                n == self.entries@.len(),
                i <= n,
                self.wf(),
                forall|j: int| 0 <= j < i ==> lex_less(#[trigger] self.entries_view()[j].0, key@),
            decreases n - i,
        {
            i = i + 1;
        }
        if i < n && same_text(self.entries[i].0.as_str(), key) {
            Ok(i)
        } else {
            proof {
                if i < n {
                    let ki = self.entries_view()[i as int].0;
                    assert(ki == self.entries@[i as int].0@);
                    lemma_lex_total(ki, key@);
                    assert forall|j: int| i <= j < self.entries_view().len() implies lex_less(
                        key@,
                        #[trigger] self.entries_view()[j].0,
                    ) by {
                        if j > i {
                            assert(lex_less(ki, self.entries_view()[j].0));
                            lemma_lex_transitive(key@, ki, self.entries_view()[j].0);
                        }
                    }
                }
            }
            Err(i)
        }
    }

    /// Whether `key` is in the table.
    pub fn contains_key(&self, key: &str) -> (r: bool)
        requires
            self.wf(),
        ensures
            r == self@.contains_key(key@),
    {
        match self.find(key) {
            Ok(i) => {
                proof {
                    lemma_entry_in_map(self.entries_view(), i as int);
                }
                true
            },
            Err(p) => {
                proof {
                    self.lemma_absent(key@, p as int);
                }
                false
            },
        }
    }

    proof fn lemma_absent(&self, k: Seq<char>, p: int)
        requires
            self.wf(),
            p <= self.entries_view().len(),
            forall|j: int| 0 <= j < p ==> lex_less(#[trigger] self.entries_view()[j].0, k),
            forall|j: int|
                p <= j < self.entries_view().len() ==> lex_less(k, #[trigger] self.entries_view()[j].0),
        ensures
            !self@.contains_key(k),
    {
        if has_key(self.entries_view(), k) {
            let q = choose|i: int|
                0 <= i < self.entries_view().len() && #[trigger] self.entries_view()[i].0 == k;
            lemma_lex_irreflexive(k);
            if q < p {
                assert(lex_less(self.entries_view()[q].0, k));
            } else {
                assert(lex_less(k, self.entries_view()[q].0));
            }
        }
    }

    /// The value stored under `key`, if any.
    pub fn get(&self, key: &str) -> (r: Option<&V>)
        requires
            self.wf(),
        ensures
            r == (if self@.contains_key(key@) {
                Some(&self@[key@])
            } else {
                None
            }),
    {
        match self.find(key) {
            Ok(i) => {
                proof {
                    lemma_entry_in_map(self.entries_view(), i as int);
                }
                Some(&self.entries[i].1)
            },
            Err(p) => {
                proof {
                    self.lemma_absent(key@, p as int);
                }
                None
            },
        }
    }

    /// Stores `value` under `key`, replacing any value stored there before.
    pub fn insert(&mut self, key: String, value: V)
        requires
            old(self).wf(),
        ensures
            final(self).wf(),
            final(self)@ == old(self)@.insert(key@, value),
    {
        let ghost old_view = self.entries_view();
        match self.find(key.as_str()) {
            Ok(i) => {
                let ghost k = key@;
                self.entries.set(i, (key, value));
                let ghost new_view = self.entries_view();
                assert(new_view =~= old_view.update(i as int, (k, value)));
                assert(keys_increasing(new_view));
                proof {
                    lemma_entry_in_map(new_view, i as int);
                    assert forall|x: Seq<char>| #[trigger]
                        as_map(new_view).contains_key(x) == old(self)@.insert(k, value).contains_key(x)
                        by {
                        if has_key(old_view, x) {
                            let q = position_of(old_view, x);
                            assert(new_view[q].0 == x);
                        }
                        if has_key(new_view, x) {
                            let q = position_of(new_view, x);
                            if q != i {
                                assert(old_view[q].0 == x);
                            }
                        }
                    }
                    assert forall|x: Seq<char>| #[trigger]
                        as_map(new_view).contains_key(x) implies as_map(new_view)[x] == old(self)@.insert(
                        k,
                        value,
                    )[x] by {
                        if x != k {
                            let q = position_of(new_view, x);
                            lemma_entry_in_map(new_view, q);
                            assert(q != i);
                            assert(old_view[q].0 == x);
                            lemma_entry_in_map(old_view, q);
                        }
                    }
                    assert(as_map(new_view) =~= old(self)@.insert(k, value));
                }
            },
            Err(p) => {
                let ghost k = key@;
                self.entries.insert(p, (key, value));
                let ghost new_view = self.entries_view();
                assert(new_view =~= old_view.insert(p as int, (k, value)));
                assert forall|a: int, b: int|
                    0 <= a < b < new_view.len() implies lex_less(
                    #[trigger] new_view[a].0,
                    #[trigger] new_view[b].0,
                ) by {
                    if b < p {
                        assert(new_view[a] == old_view[a] && new_view[b] == old_view[b]);
                    } else if b == p {
                        assert(new_view[a] == old_view[a]);
                    } else if a < p {
                        assert(new_view[a] == old_view[a] && new_view[b] == old_view[b - 1]);
                        lemma_lex_transitive(old_view[a].0, k, old_view[b - 1].0);
                    } else if a == p {
                        assert(new_view[b] == old_view[b - 1]);
                    } else {
                        assert(new_view[a] == old_view[a - 1] && new_view[b] == old_view[b - 1]);
                    }
                }
                proof {
                    lemma_entry_in_map(new_view, p as int);
                    assert forall|x: Seq<char>| #[trigger]
                        as_map(new_view).contains_key(x) == old(self)@.insert(k, value).contains_key(x)
                        by {
                        if has_key(old_view, x) {
                            let q = position_of(old_view, x);
                            if q < p {
                                assert(new_view[q].0 == x);
                            } else {
                                assert(new_view[q + 1].0 == x);
                            }
                        }
                        if has_key(new_view, x) {
                            let q = position_of(new_view, x);
                            if q < p {
                                assert(old_view[q].0 == x);
                            } else if q > p {
                                assert(old_view[q - 1].0 == x);
                            }
                        }
                    }
                    assert forall|x: Seq<char>| #[trigger]
                        as_map(new_view).contains_key(x) implies as_map(new_view)[x] == old(self)@.insert(
                        k,
                        value,
                    )[x] by {
                        if x != k {
                            let q = position_of(new_view, x);
                            lemma_entry_in_map(new_view, q);
                            if q < p {
                                assert(old_view[q] == new_view[q]);
                                lemma_entry_in_map(old_view, q);
                            } else {
                                assert(q != p);
                                assert(old_view[q - 1] == new_view[q]);
                                lemma_entry_in_map(old_view, q - 1);
                            }
                        }
                    }
                    assert(as_map(new_view) =~= old(self)@.insert(k, value));
                }
            },
        }
    }
}

} // verus!
