//! A small map keyed by text, kept as a vector of distinct entries in
//! insertion order. It stands for the hash maps keyed by `String` that the
//! cache, the keyring records and the registry cache hold.
use vstd::prelude::*;
use crate::text::str_eq;

verus! {

pub open spec fn entry_keys<V>(es: Seq<(String, V)>) -> Seq<Seq<char>> {
    es.map_values(|e: (String, V)| e.0@)
}

/// No key occurs twice among the entries.
pub open spec fn keys_distinct<V>(es: Seq<(String, V)>) -> bool {
    forall|a: int, b: int| 0 <= a < b < es.len() ==> es[a].0@ != es[b].0@
}

/// The map that the entries `es` stand for.
pub open spec fn entries_map<V>(es: Seq<(String, V)>) -> Map<Seq<char>, V>
    decreases es.len(),
{
    if es.len() == 0 {
        Map::empty()
    } else {
        entries_map(es.drop_last()).insert(es.last().0@, es.last().1)
    }
}

/// A map from text keys to values.
pub struct StrMap<V> {
    entries: Vec<(String, V)>,
}

impl<V> View for StrMap<V> {
    type V = Map<Seq<char>, V>;

    closed spec fn view(&self) -> Map<Seq<char>, V> {
        entries_map(self.entries@)
    }
}

impl<V> StrMap<V> {
    #[verifier::type_invariant]
    spec fn inv(self) -> bool {
        keys_distinct(self.entries@)
    }

    /// The entries in insertion order.
    pub closed spec fn entry_seq(&self) -> Seq<(String, V)> {
        self.entries@
    }

    /// The keys in insertion order.
    pub closed spec fn key_seq(&self) -> Seq<Seq<char>> {
        entry_keys(self.entries@)
    }

    /// States how the entries describe the map: distinct keys, each holding its
    /// value. It computes nothing.
    pub(crate) fn entries_describe_map(&self)
        ensures
            keys_distinct(self.entry_seq()),
            self@ == entries_map(self.entry_seq()),
            self@.dom().finite(),
            forall|k: Seq<char>| self@.contains_key(k) <==> exists|i: int| 0 <= i < self.entry_seq().len() && (#[trigger] self.entry_seq()[i]).0@ == k,
            forall|i: int| 0 <= i < self.entry_seq().len() ==> self@.contains_key((#[trigger] self.entry_seq()[i]).0@)
                && self@[self.entry_seq()[i].0@] == self.entry_seq()[i].1,
            self.key_seq() == entry_keys(self.entry_seq()),
    {
        proof {
            use_type_invariant(self);
            lemma_entries_map(self.entries@);
        }
    }

    /// An empty map.
    pub fn new() -> (m: Self)
        ensures
            m@ == Map::<Seq<char>, V>::empty(),
            m.entry_seq().len() == 0,
    {
        StrMap { entries: Vec::new() }
    }

    fn find(&self, key: &str) -> (r: Option<usize>)
        ensures
            r matches Some(k) ==> k < self.entries@.len() && self.entries@[k as int].0@ == key@,
            r is None ==> forall|j: int| 0 <= j < self.entries@.len() ==> self.entries@[j].0@ != key@,
    {
        let mut j: usize = 0;
        while j < self.entries.len()
            invariant
                j <= self.entries@.len(),
                forall|q: int| 0 <= q < j ==> self.entries@[q].0@ != key@,
            decreases self.entries.len() - j,
        {
            if str_eq(self.entries[j].0.as_str(), key) {
                return Some(j);
            }
            j = j + 1;
        }
        None
    }

    /// The number of entries.
    pub fn len(&self) -> (n: usize)
        ensures
            n == self.entry_seq().len(),
            n == self@.dom().len(),
    {
        proof {
            use_type_invariant(self);
            lemma_entries_map_len(self.entries@);
        }
        self.entries.len()
    }

    /// Whether `key` has an entry.
    pub fn contains_key(&self, key: &str) -> (r: bool)
        ensures
            r == self@.contains_key(key@),
    {
        proof {
            use_type_invariant(self);
            lemma_entries_map(self.entries@);
        }
        self.find(key).is_some()
    }

    /// The value under `key`, if any.
    pub fn get(&self, key: &str) -> (r: Option<&V>)
        ensures
            r is None <==> !self@.contains_key(key@),
            r is Some ==> *r->Some_0 == self@[key@],
    {
        proof {
            use_type_invariant(self);
            lemma_entries_map(self.entries@);
        }
        match self.find(key) {
            Some(k) => Some(&self.entries[k].1),
            None => None,
        }
    }

    /// The entry at position `i` of the insertion order.
    pub fn entry_at(&self, i: usize) -> (r: (&String, &V))
        requires
            i < self.entry_seq().len(),
        ensures
            *r.0 == self.entry_seq()[i as int].0,
            *r.1 == self.entry_seq()[i as int].1,
    {
        (&self.entries[i].0, &self.entries[i].1)
    }

    /// Sets the value under `key`, adding the key if it is new; a new key goes
    /// after all others.
    pub fn insert(&mut self, key: String, v: V)
        ensures
            final(self)@ == old(self)@.insert(key@, v),
            old(self)@.contains_key(key@) ==> entry_keys(final(self).entry_seq()) == entry_keys(
                old(self).entry_seq(),
            ),
            !old(self)@.contains_key(key@) ==> entry_keys(final(self).entry_seq()) == entry_keys(
                old(self).entry_seq(),
            ).push(key@),
            !old(self)@.contains_key(key@) ==> final(self).entry_seq() == old(self).entry_seq().push((key, v)),
            old(self)@.contains_key(key@) ==> exists|k: int|
                0 <= k < old(self).entry_seq().len() && (#[trigger] old(self).entry_seq()[k]).0@ == key@
                    && final(self).entry_seq() == old(self).entry_seq().update(k, (key, v)),
    {
        proof {
            use_type_invariant(&*self);
            lemma_entries_map(self.entries@);
        }
        let ghost key_view = key@;
        let ghost old_entries = self.entries@;
        match self.find(key.as_str()) {
            Some(k) => {
                proof {
                    assert(old_entries.update(k as int, (key, v)).len() == old_entries.len());
                    assert forall|a: int, b: int| 0 <= a < b < old_entries.len() implies old_entries.update(
                        k as int,
                        (key, v),
                    )[a].0@ != old_entries.update(k as int, (key, v))[b].0@ by {}
                }
                let mut es: Vec<(String, V)> = Vec::new();
                std::mem::swap(&mut es, &mut self.entries);
                es.set(k, (key, v));
                self.entries = es;
                proof {
                    lemma_entries_map(self.entries@);
                    assert(self.entries@ == old_entries.update(k as int, (key, v)));
                    let ne = self.entries@;
                    let target = entries_map(old_entries).insert(key_view, v);
                    assert forall|q: Seq<char>| entries_map(ne).contains_key(q) <==> target.contains_key(q) by {
                        if entries_map(ne).contains_key(q) {
                            let i = choose|i: int| 0 <= i < ne.len() && (#[trigger] ne[i]).0@ == q;
                            if i != k {
                                assert(ne[i] == old_entries[i]);
                            }
                        }
                        if target.contains_key(q) && q != key_view {
                            let i = choose|i: int| 0 <= i < old_entries.len() && (#[trigger] old_entries[i]).0@ == q;
                            assert(ne[i] == old_entries[i]);
                        }
                        if q == key_view {
                            assert(ne[k as int].0@ == key_view);
                        }
                    }
                    assert forall|q: Seq<char>| #[trigger] entries_map(ne).contains_key(q) implies entries_map(ne)[q]
                        == target[q] by {
                        let i = choose|i: int| 0 <= i < ne.len() && (#[trigger] ne[i]).0@ == q;
                        if i != k {
                            assert(ne[i] == old_entries[i]);
                            assert(old_entries[i].0@ != old_entries[k as int].0@);
                        }
                    }
                    assert(entries_map(self.entries@) =~= entries_map(old_entries).insert(key_view, v));
                    assert(entry_keys(self.entries@) =~= entry_keys(old_entries));
                    assert(old(self).entry_seq()[k as int].0@ == key_view);
                }
            },
            None => {
                proof {
                    assert(!entries_map(old_entries).contains_key(key_view));
                }
                let mut es: Vec<(String, V)> = Vec::new();
                std::mem::swap(&mut es, &mut self.entries);
                es.push((key, v));
                self.entries = es;
                proof {
                    assert(self.entries@ == old_entries.push((key, v)));
                    assert(self.entries@.drop_last() == old_entries);
                    assert(entry_keys(self.entries@) =~= entry_keys(old_entries).push(key_view));
                }
            },
        }
    }

    /// Removes the entry under `key`, if any; the other entries keep their
    /// order.
    pub fn remove(&mut self, key: &str) -> (r: Option<V>)
        ensures
            final(self)@ == old(self)@.remove(key@),
            r is None <==> !old(self)@.contains_key(key@),
            r is Some ==> r->Some_0 == old(self)@[key@],
    {
        proof {
            use_type_invariant(&*self);
            lemma_entries_map(self.entries@);
        }
        let ghost old_entries = self.entries@;
        match self.find(key) {
            Some(k) => {
                proof {
                    let ne = old_entries.remove(k as int);
                    assert forall|a: int, b: int| 0 <= a < b < ne.len() implies ne[a].0@ != ne[b].0@ by {
                        let a2 = if a < k { a } else { a + 1 };
                        let b2 = if b < k { b } else { b + 1 };
                        assert(ne[a] == old_entries[a2]);
                        assert(ne[b] == old_entries[b2]);
                    }
                }
                let mut es: Vec<(String, V)> = Vec::new();
                std::mem::swap(&mut es, &mut self.entries);
                let (_, v) = es.remove(k);
                self.entries = es;
                proof {
                    let ne = self.entries@;
                    assert(ne == old_entries.remove(k as int));
                    lemma_entries_map(ne);
                    assert forall|q: Seq<char>| entries_map(ne).contains_key(q) <==> entries_map(old_entries).remove(
                        key@,
                    ).contains_key(q) by {
                        if entries_map(ne).contains_key(q) {
                            let i = choose|i: int| 0 <= i < ne.len() && (#[trigger] ne[i]).0@ == q;
                            let i2 = if i < k { i } else { i + 1 };
                            assert(ne[i] == old_entries[i2]);
                        }
                        if entries_map(old_entries).remove(key@).contains_key(q) {
                            let i = choose|i: int| 0 <= i < old_entries.len() && (#[trigger] old_entries[i]).0@ == q;
                            assert(i != k);
                            let i2 = if i < k { i } else { i - 1 };
                            assert(ne[i2] == old_entries[i]);
                        }
                    }
                    assert forall|q: Seq<char>| #[trigger] entries_map(ne).contains_key(q) implies entries_map(ne)[q]
                        == entries_map(old_entries).remove(key@)[q] by {
                        let i = choose|i: int| 0 <= i < ne.len() && (#[trigger] ne[i]).0@ == q;
                        let i2 = if i < k { i } else { i + 1 };
                        assert(ne[i] == old_entries[i2]);
                    }
                    assert(entries_map(ne) =~= entries_map(old_entries).remove(key@));
                }
                Some(v)
            },
            None => {
                proof {
                    assert(entries_map(old_entries).remove(key@) =~= entries_map(old_entries));
                }
                None
            },
        }
    }
}

/// The map of distinct entries holds exactly their keys, each with its value.
pub proof fn lemma_entries_map<V>(es: Seq<(String, V)>)
    requires
        keys_distinct(es),
    ensures
        entries_map(es).dom().finite(),
        forall|k: Seq<char>| entries_map(es).contains_key(k) <==> exists|i: int| 0 <= i < es.len() && (#[trigger] es[i]).0@ == k,
        forall|i: int| 0 <= i < es.len() ==> entries_map(es).contains_key((#[trigger] es[i]).0@)
            && entries_map(es)[es[i].0@] == es[i].1,
    decreases es.len(),
{
    if es.len() > 0 {
        let t = es.drop_last();
        lemma_entries_map(t);
        assert forall|k: Seq<char>| entries_map(es).contains_key(k) <==> exists|i: int| 0 <= i < es.len() && (#[trigger] es[i]).0@ == k by {
            if entries_map(es).contains_key(k) && k != es.last().0@ {
                let i = choose|i: int| 0 <= i < t.len() && (#[trigger] t[i]).0@ == k;
                assert(es[i] == t[i]);
            }
            if exists|i: int| 0 <= i < es.len() && (#[trigger] es[i]).0@ == k {
                let i = choose|i: int| 0 <= i < es.len() && (#[trigger] es[i]).0@ == k;
                if i < es.len() - 1 {
                    assert(t[i] == es[i]);
                }
            }
        }
        assert forall|i: int| 0 <= i < es.len() implies entries_map(es).contains_key((#[trigger] es[i]).0@)
            && entries_map(es)[es[i].0@] == es[i].1 by {
            if i < es.len() - 1 {
                assert(t[i] == es[i]);
                assert(es[i].0@ != es.last().0@);
            }
        }
    }
}

/// The map of distinct entries has one key per entry.
pub proof fn lemma_entries_map_len<V>(es: Seq<(String, V)>)
    requires
        keys_distinct(es),
    ensures
        entries_map(es).dom().len() == es.len(),
    decreases es.len(),
{
    if es.len() > 0 {
        let t = es.drop_last();
        lemma_entries_map_len(t);
        lemma_entries_map(t);
        assert(!entries_map(t).contains_key(es.last().0@)) by {
            if entries_map(t).contains_key(es.last().0@) {
                let i = choose|i: int| 0 <= i < t.len() && (#[trigger] t[i]).0@ == es.last().0@;
                assert(t[i] == es[i]);
            }
        }
        assert(entries_map(es).dom() == entries_map(t).dom().insert(es.last().0@));
    } else {
        assert(entries_map(es).dom() =~= Set::<Seq<char>>::empty());
    }
}

} // verus!
