//! A table from names to values with at most one entry per name.

use vstd::prelude::*;

use crate::text::str_eq;

verus! {

/// Entries keyed by name; the name of each entry is unique. Its view is the
/// map from each name to its value.
pub struct NamedTable<V> {
    entries: Vec<(String, V)>,
    contents: Ghost<Map<Seq<char>, V>>,
}

impl<V> View for NamedTable<V> {
    type V = Map<Seq<char>, V>;

    closed spec fn view(&self) -> Map<Seq<char>, V> {
        self.contents@
    }
}

/// Whether `pairs` holds each name at most once.
pub open spec fn names_distinct<V>(pairs: Seq<(String, V)>) -> bool {
    forall|i: int, j: int|
        0 <= i < pairs.len() && 0 <= j < pairs.len() && i != j ==> #[trigger] pairs[i].0@
            != #[trigger] pairs[j].0@
}

/// Whether `pairs` lists the map `m` exactly: each pair is an entry of `m`,
/// each name of `m` occurs, and no name twice.
pub open spec fn lists_exactly<V>(pairs: Seq<(String, V)>, m: Map<Seq<char>, V>) -> bool {
    &&& names_distinct(pairs)
    &&& forall|i: int|
        0 <= i < pairs.len() ==> m.contains_key(#[trigger] pairs[i].0@) && m[pairs[i].0@]
            == pairs[i].1
    &&& forall|k: Seq<char>|
        #[trigger] m.contains_key(k) ==> exists|i: int| 0 <= i < pairs.len() && pairs[i].0@ == k
}

/// A list that names each entry of `m` exactly once has as many pairs as
/// `m` has entries, and each name of `m` stands at exactly one position.
pub proof fn lemma_listed_once<V>(pairs: Seq<(String, V)>, m: Map<Seq<char>, V>)
    requires
        lists_exactly(pairs, m),
    ensures
        m.dom().finite(),
        m.len() == pairs.len(),
        forall|k: Seq<char>|
            #[trigger] m.contains_key(k) ==> exists|i: int|
                0 <= i < pairs.len() && pairs[i].0@ == k && forall|j: int|
                    0 <= j < pairs.len() && j != i ==> pairs[j].0@ != k,
    decreases pairs.len(),
{
    if pairs.len() == 0 {
        assert(m.dom() =~= Set::<Seq<char>>::empty());
    } else {
        let last = pairs.last();
        let rest = pairs.drop_last();
        let m2 = m.remove(last.0@);
        assert forall|k: Seq<char>| #[trigger] m2.contains_key(k) implies exists|i: int|
            0 <= i < rest.len() && rest[i].0@ == k by {
            let i = choose|i: int| 0 <= i < pairs.len() && pairs[i].0@ == k;
            assert(i != pairs.len() - 1);
            assert(rest[i] == pairs[i]);
        }
        assert forall|i: int| 0 <= i < rest.len() implies m2.contains_key(
            #[trigger] rest[i].0@,
        ) && m2[rest[i].0@] == rest[i].1 by {
            assert(rest[i] == pairs[i]);
            assert(pairs[i].0@ != pairs[pairs.len() - 1].0@);
        }
        assert forall|a: int, b: int|
            0 <= a < rest.len() && 0 <= b < rest.len() && a != b implies #[trigger] rest[a].0@
            != #[trigger] rest[b].0@ by {
            assert(rest[a] == pairs[a] && rest[b] == pairs[b]);
        }
        lemma_listed_once(rest, m2);
        assert(m.dom() =~= m2.dom().insert(last.0@));
    }
    assert forall|k: Seq<char>| #[trigger] m.contains_key(k) implies exists|i: int|
        0 <= i < pairs.len() && pairs[i].0@ == k && forall|j: int|
            0 <= j < pairs.len() && j != i ==> pairs[j].0@ != k by {
        let i = choose|i: int| 0 <= i < pairs.len() && pairs[i].0@ == k;
        assert forall|j: int| 0 <= j < pairs.len() && j != i implies pairs[j].0@ != k by {
            assert(pairs[j].0@ != pairs[i].0@);
        }
    }
}

impl<V> NamedTable<V> {
    /// The entries list the view exactly.
    pub closed spec fn wf(&self) -> bool {
        lists_exactly(self.entries@, self.contents@)
    }

    /// An empty table.
    pub fn new() -> (r: Self)
        ensures
            r.wf(),
            r@ == Map::<Seq<char>, V>::empty(),
    {
        NamedTable { entries: Vec::new(), contents: Ghost(Map::empty()) }
    }

    /// The position of the entry named `key`.
    fn find(&self, key: &str) -> (r: Option<usize>)
        requires
            self.wf(),
        ensures
            r.is_some() == self@.contains_key(key@),
            r matches Some(i) ==> i < self.entries@.len() && self.entries@[i as int].0@ == key@,
    {
        let mut i: usize = 0;
        while i < self.entries.len()
            invariant
                self.wf(),
                i <= self.entries@.len(),
                forall|j: int| 0 <= j < i ==> #[trigger] self.entries@[j].0@ != key@,
            decreases self.entries@.len() - i,
        {
            if str_eq(self.entries[i].0.as_str(), key) {
                return Some(i);
            }
            i += 1;
        }
        None
    }

    /// Whether an entry is named `key`.
    pub fn contains(&self, key: &str) -> (r: bool)
        requires
            self.wf(),
        ensures
            r == self@.contains_key(key@),
    {
        self.find(key).is_some()
    }

    /// The value named `key`.
    pub fn get(&self, key: &str) -> (r: Option<&V>)
        requires
            self.wf(),
        ensures
            r.is_some() == self@.contains_key(key@),
            r.is_some() ==> *r.unwrap() == self@[key@],
    {
        match self.find(key) {
            Some(i) => Some(&self.entries[i].1),
            None => None,
        }
    }

    /// Adds `value` under `key` unless the name is taken; a taken name keeps
    /// its entry and `value` is handed back.
    pub fn insert_new(&mut self, key: String, value: V) -> (r: Option<V>)
        requires
            old(self).wf(),
        ensures
            final(self).wf(),
            old(self)@.contains_key(key@) ==> r == Some(value) && final(self)@ == old(self)@,
            !old(self)@.contains_key(key@) ==> r.is_none() && final(self)@ == old(self)@.insert(
                key@,
                value,
            ),
    {
        if self.find(key.as_str()).is_some() {
            return Some(value);
        }
        let ghost k = key@;
        let ghost before = self.entries@;
        self.entries.push((key, value));
        self.contents = Ghost(self.contents@.insert(k, value));
        assert(self.entries@ == before.push((self.entries@.last().0, value)));
        assert forall|kk: Seq<char>| #[trigger] self.contents@.contains_key(kk) implies exists|
            i: int,
        | 0 <= i < self.entries@.len() && self.entries@[i].0@ == kk by {
            if kk != k {
                let i = choose|i: int| 0 <= i < before.len() && before[i].0@ == kk;
                assert(self.entries@[i] == before[i]);
            } else {
                assert(self.entries@[before.len() as int].0@ == kk);
            }
        }
        None
    }

    /// Removes the entry named `key` and returns it.
    pub fn remove(&mut self, key: &str) -> (r: Option<(String, V)>)
        requires
            old(self).wf(),
        ensures
            final(self).wf(),
            final(self)@ == old(self)@.remove(key@),
            r.is_some() == old(self)@.contains_key(key@),
            r matches Some(e) ==> e.0@ == key@ && e.1 == old(self)@[key@],
    {
        match self.find(key) {
            None => {
                assert(self.contents@.remove(key@) =~= self.contents@);
                None
            },
            Some(i) => {
                let ghost before = self.entries@;
                let e = self.entries.remove(i);
                self.contents = Ghost(self.contents@.remove(key@));
                assert forall|j: int|
                    0 <= j < self.entries@.len() implies self.contents@.contains_key(
                    #[trigger] self.entries@[j].0@,
                ) && self.contents@[self.entries@[j].0@] == self.entries@[j].1 by {
                    if j < i {
                        assert(self.entries@[j] == before[j]);
                    } else {
                        assert(self.entries@[j] == before[j + 1]);
                    }
                }
                assert forall|kk: Seq<char>| #[trigger]
                    self.contents@.contains_key(kk) implies exists|j: int|
                    0 <= j < self.entries@.len() && self.entries@[j].0@ == kk by {
                    let j = choose|j: int| 0 <= j < before.len() && before[j].0@ == kk;
                    if j < i {
                        assert(self.entries@[j] == before[j]);
                    } else {
                        assert(j != i);
                        assert(self.entries@[j - 1] == before[j]);
                    }
                }
                assert forall|a: int, b: int|
                    0 <= a < self.entries@.len() && 0 <= b < self.entries@.len() && a
                        != b implies #[trigger] self.entries@[a].0@ != #[trigger] self.entries@[b].0@ by {
                    let a0 = if a < i { a } else { a + 1 };
                    let b0 = if b < i { b } else { b + 1 };
                    assert(self.entries@[a] == before[a0]);
                    assert(self.entries@[b] == before[b0]);
                }
                Some(e)
            },
        }
    }

    /// Puts `value` under `key`, replacing the entry of that name if any, and
    /// returns the value it replaced.
    pub fn upsert(&mut self, key: String, value: V) -> (r: Option<V>)
        requires
            old(self).wf(),
        ensures
            final(self).wf(),
            final(self)@ == old(self)@.insert(key@, value),
            r.is_some() == old(self)@.contains_key(key@),
            r matches Some(v) ==> v == old(self)@[key@],
    {
        let removed = self.remove(key.as_str());
        let ghost k = key@;
        let res = self.insert_new(key, value);
        assert(res.is_none());
        assert(self.contents@ =~= old(self)@.insert(k, value));
        match removed {
            Some(e) => Some(e.1),
            None => None,
        }
    }

    /// Empties the table and returns its entries, each once.
    pub fn drain(&mut self) -> (r: Vec<(String, V)>)
        requires
            old(self).wf(),
        ensures
            final(self).wf(),
            final(self)@ == Map::<Seq<char>, V>::empty(),
            lists_exactly(r@, old(self)@),
    {
        let mut r: Vec<(String, V)> = Vec::new();
        std::mem::swap(&mut r, &mut self.entries);
        self.contents = Ghost(Map::empty());
        r
    }
}

} // verus!
