//! A table from strings to values, kept in insertion order, with at most one
//! entry per key: inserting a key that is present replaces its value in place.
use vstd::prelude::*;
use crate::text::{chars_eq, chars_of};

verus! {

/// The keys of `s` are pairwise distinct.
pub open spec fn distinct_keys<V>(s: Seq<(Seq<char>, V)>) -> bool {
    forall|i: int, j: int| 0 <= i < s.len() && 0 <= j < s.len() && i != j ==> s[i].0 != s[j].0
}

/// The index of the entry of `s` whose key is `k`, or -1.
pub open spec fn index_of_key<V>(s: Seq<(Seq<char>, V)>, k: Seq<char>) -> int {
    if exists|i: int| 0 <= i < s.len() && s[i].0 == k {
        choose|i: int| 0 <= i < s.len() && s[i].0 == k
    } else {
        -1
    }
}

/// The value that `s` holds for `k`, if any.
pub open spec fn lookup<V>(s: Seq<(Seq<char>, V)>, k: Seq<char>) -> Option<V> {
    let i = index_of_key(s, k);
    if i >= 0 {
        Some(s[i].1)
    } else {
        None
    }
}

/// `s` with `v` under `k`: the value of an existing entry is replaced in place,
/// otherwise a new entry is appended.
pub open spec fn with_entry<V>(s: Seq<(Seq<char>, V)>, k: Seq<char>, v: V) -> Seq<(Seq<char>, V)> {
    let i = index_of_key(s, k);
    if i >= 0 {
        s.update(i, (k, v))
    } else {
        s.push((k, v))
    }
}

pub proof fn lemma_index_of_key<V>(s: Seq<(Seq<char>, V)>, k: Seq<char>, i: int)
    requires
        distinct_keys(s),
        0 <= i < s.len(),
        s[i].0 == k,
    ensures
        index_of_key(s, k) == i,
{
}

pub proof fn lemma_with_entry_distinct<V>(s: Seq<(Seq<char>, V)>, k: Seq<char>, v: V)
    requires
        distinct_keys(s),
    ensures
        distinct_keys(with_entry(s, k, v)),
{
}

/// Reading back after a write: the written key gives the written value, and
/// every other key keeps what it had.
pub proof fn lemma_lookup_with_entry<V>(s: Seq<(Seq<char>, V)>, k: Seq<char>, v: V, q: Seq<char>)
    requires
        distinct_keys(s),
    ensures
        lookup(with_entry(s, k, v), q) == (if q == k {
            Some(v)
        } else {
            lookup(s, q)
        }),
{
    let t = with_entry(s, k, v);
    lemma_with_entry_distinct(s, k, v);
    let i = index_of_key(s, k);
    if q == k {
        if i >= 0 {
            lemma_index_of_key(t, q, i);
        } else {
            lemma_index_of_key(t, q, s.len() as int);
        }
    } else {
        let j = index_of_key(s, q);
        if j >= 0 {
            lemma_index_of_key(t, q, j);
        } else {
            assert forall|m: int| 0 <= m < t.len() implies t[m].0 != q by {
                if m < s.len() && m != i {
                    assert(t[m] == s[m]);
                }
            }
        }
    }
}

/// The table that results from inserting `entries` in order into an empty one.
pub open spec fn table_of<V>(entries: Seq<(Seq<char>, V)>) -> Seq<(Seq<char>, V)>
    decreases entries.len(),
{
    if entries.len() == 0 {
        Seq::empty()
    } else {
        with_entry(table_of(entries.drop_last()), entries.last().0, entries.last().1)
    }
}

/// The value of the last of `entries` whose key is `k`, if any.
pub open spec fn last_value_for<V>(entries: Seq<(Seq<char>, V)>, k: Seq<char>) -> Option<V>
    decreases entries.len(),
{
    if entries.len() == 0 {
        None
    } else if entries.last().0 == k {
        Some(entries.last().1)
    } else {
        last_value_for(entries.drop_last(), k)
    }
}

pub proof fn lemma_table_of_distinct<V>(entries: Seq<(Seq<char>, V)>)
    ensures
        distinct_keys(table_of(entries)),
    decreases entries.len(),
{
    if entries.len() > 0 {
        lemma_table_of_distinct(entries.drop_last());
        lemma_with_entry_distinct(table_of(entries.drop_last()), entries.last().0, entries.last().1);
    }
}

/// Reading a key of a table built by insertions gives the value of the last
/// insertion under that key.
pub proof fn lemma_table_of_lookup<V>(entries: Seq<(Seq<char>, V)>, k: Seq<char>)
    ensures
        lookup(table_of(entries), k) == last_value_for(entries, k),
    decreases entries.len(),
{
    if entries.len() > 0 {
        lemma_table_of_lookup(entries.drop_last(), k);
        lemma_table_of_distinct(entries.drop_last());
        lemma_lookup_with_entry(table_of(entries.drop_last()), entries.last().0, entries.last().1, k);
    }
}

/// Inserting entries whose keys are pairwise distinct builds a table that
/// holds exactly those entries, in order.
pub proof fn lemma_table_of_distinct_entries<V>(entries: Seq<(Seq<char>, V)>)
    requires
        distinct_keys(entries),
    ensures
        table_of(entries) == entries,
    decreases entries.len(),
{
    if entries.len() > 0 {
        let rest = entries.drop_last();
        assert(distinct_keys(rest));
        lemma_table_of_distinct_entries(rest);
        assert forall|i: int| 0 <= i < rest.len() implies rest[i].0 != entries.last().0 by {
            assert(rest[i] == entries[i]);
        }
        assert(index_of_key(rest, entries.last().0) == -1);
        assert(rest.push(entries.last()) =~= entries);
    }
}

pub struct Table<V> {
    entries: Vec<(String, V)>,
}

impl<V> Table<V> {
    /// The entries, keys taken by their characters, in insertion order.
    pub closed spec fn pairs(&self) -> Seq<(Seq<char>, V)> {
        self.entries@.map_values(|e: (String, V)| (e.0@, e.1))
    }

    #[verifier::type_invariant]
    closed spec fn keys_distinct(&self) -> bool {
        distinct_keys(self.pairs())
    }

    pub fn new() -> (t: Self)
        ensures
            t.pairs() == Seq::<(Seq<char>, V)>::empty(),
    {
        let t = Table { entries: Vec::new() };
        assert(t.pairs() =~= Seq::<(Seq<char>, V)>::empty());
        t
    }

    /// The position of `key` among the entries.
    fn position(&self, key: &Vec<char>) -> (r: Option<usize>)
        ensures
            match r {
                Some(i) => i < self.pairs().len() && self.pairs()[i as int].0 == key@,
                None => index_of_key(self.pairs(), key@) == -1,
            },
    {
        let mut i: usize = 0;
        while i < self.entries.len()
            invariant
                i <= self.entries@.len(),
                self.pairs().len() == self.entries@.len(),
                forall|j: int| 0 <= j < i ==> self.pairs()[j].0 != key@,
            decreases self.entries.len() - i,
        {
            let k = chars_of(self.entries[i].0.as_str());
            if chars_eq(&k, key) {
                return Some(i);
            }
            i = i + 1;
        }
        None
    }

    /// Puts `value` under `key`.
    pub fn insert(&mut self, key: String, value: V)
        ensures
            distinct_keys(old(self).pairs()),
            final(self).pairs() == with_entry(old(self).pairs(), key@, value),
    {
        proof {
            use_type_invariant(&*self);
        }
        let ghost old_pairs = self.pairs();
        let k = chars_of(key.as_str());
        match self.position(&k) {
            Some(i) => {
                proof {
                    lemma_index_of_key(old_pairs, key@, i as int);
                    lemma_with_entry_distinct(old_pairs, key@, value);
                }
                let mut entries = Vec::new();
                std::mem::swap(&mut entries, &mut self.entries);
                entries.set(i, (key, value));
                assert(entries@.map_values(|e: (String, V)| (e.0@, e.1)) =~= with_entry(
                    old_pairs,
                    k@,
                    value,
                ));
                self.entries = entries;
            },
            None => {
                proof {
                    lemma_with_entry_distinct(old_pairs, key@, value);
                }
                let mut entries = Vec::new();
                std::mem::swap(&mut entries, &mut self.entries);
                entries.push((key, value));
                assert(entries@.map_values(|e: (String, V)| (e.0@, e.1)) =~= with_entry(
                    old_pairs,
                    k@,
                    value,
                ));
                self.entries = entries;
            },
        }
    }

    /// The value under `key`, if any.
    pub fn get(&self, key: &str) -> (r: Option<&V>)
        ensures
            distinct_keys(self.pairs()),
            match r {
                Some(v) => lookup(self.pairs(), key@) == Some(*v),
                None => lookup(self.pairs(), key@) is None,
            },
    {
        proof {
            use_type_invariant(self);
        }
        let k = chars_of(key);
        match self.position(&k) {
            Some(i) => {
                proof {
                    lemma_index_of_key(self.pairs(), key@, i as int);
                }
                Some(&self.entries[i].1)
            },
            None => None,
        }
    }

    pub fn len(&self) -> (r: usize)
        ensures
            r == self.pairs().len(),
    {
        self.entries.len()
    }

    /// The value of the `i`-th entry.
    pub fn value_at(&self, i: usize) -> (r: &V)
        requires
            i < self.pairs().len(),
        ensures
            *r == self.pairs()[i as int].1,
    {
        &self.entries[i].1
    }
}

} // verus!
