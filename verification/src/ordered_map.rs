use vstd::prelude::*;

use crate::text::{lemma_text_lt_irreflexive, lemma_text_lt_total, lemma_text_lt_transitive, str_lt, text_lt};

verus! {

/// Whether the keys of `s` strictly increase in code-point order, so that no
/// key occurs twice.
pub open spec fn keys_increasing<V>(s: Seq<(Seq<char>, V)>) -> bool {
    forall|i: int, j: int| 0 <= i < j < s.len() ==> text_lt(#[trigger] s[i].0, #[trigger] s[j].0)
}

/// The entries after inserting `(k, v)` into the key-ordered entries `m`: the
/// value of an existing key `k` is replaced in place, otherwise the new entry
/// goes before the first key greater than `k`.
pub open spec fn spec_insert<V>(m: Seq<(Seq<char>, V)>, k: Seq<char>, v: V) -> Seq<(Seq<char>, V)>
    decreases m.len(),
{
    if m.len() == 0 {
        seq![(k, v)]
    } else if m[0].0 == k {
        m.update(0, (k, v))
    } else if text_lt(k, m[0].0) {
        seq![(k, v)] + m
    } else {
        seq![m[0]] + spec_insert(m.drop_first(), k, v)
    }
}

/// The entries after inserting each of `items` in turn.
pub open spec fn spec_insert_all<V>(m: Seq<(Seq<char>, V)>, items: Seq<(Seq<char>, V)>) -> Seq<
    (Seq<char>, V),
>
    decreases items.len(),
{
    if items.len() == 0 {
        m
    } else {
        let prior = spec_insert_all(m, items.drop_last());
        spec_insert(prior, items.last().0, items.last().1)
    }
}

/// The value stored under `k`, if any.
pub open spec fn spec_lookup<V>(m: Seq<(Seq<char>, V)>, k: Seq<char>) -> Option<V>
    decreases m.len(),
{
    if m.len() == 0 {
        None
    } else if m[0].0 == k {
        Some(m[0].1)
    } else {
        spec_lookup(m.drop_first(), k)
    }
}

/// A map from text keys to values that yields its entries in increasing key
/// order, each key at most once.
#[derive(Debug)]
pub struct OrderedMap<V> {
    entries: Vec<(String, V)>,
}

impl<V> View for OrderedMap<V> {
    type V = Seq<(Seq<char>, V)>;

    closed spec fn view(&self) -> Seq<(Seq<char>, V)> {
        self.entries@.map_values(|e: (String, V)| (e.0@, e.1))
    }
}

proof fn lemma_insert_at<V>(m: Seq<(Seq<char>, V)>, k: Seq<char>, v: V, i: int)
    requires
        0 <= i <= m.len(),
        forall|j: int| 0 <= j < i ==> text_lt(#[trigger] m[j].0, k),
        i == m.len() || !text_lt(m[i].0, k),
    ensures
        spec_insert(m, k, v) == (if i < m.len() && m[i].0 == k {
            m.update(i, (k, v))
        } else {
            m.insert(i, (k, v))
        }),
    decreases i,
{
    if i == 0 {
        if m.len() == 0 {
            assert(seq![(k, v)] =~= m.insert(0, (k, v)));
        } else if m[0].0 == k {
        } else {
            lemma_text_lt_total(m[0].0, k);
            assert(seq![(k, v)] + m =~= m.insert(0, (k, v)));
        }
    } else {
        let t = m.drop_first();
        lemma_text_lt_irreflexive(k);
        if text_lt(k, m[0].0) {
            lemma_text_lt_transitive(k, m[0].0, k);
        }
        assert forall|j: int| 0 <= j < i - 1 implies text_lt(#[trigger] t[j].0, k) by {
            assert(t[j] == m[j + 1]);
        }
        lemma_insert_at(t, k, v, i - 1);
        if i < m.len() && m[i].0 == k {
            assert(seq![m[0]] + t.update(i - 1, (k, v)) =~= m.update(i, (k, v)));
        } else {
            assert(seq![m[0]] + t.insert(i - 1, (k, v)) =~= m.insert(i, (k, v)));
        }
    }
}

proof fn lemma_lookup_at<V>(m: Seq<(Seq<char>, V)>, k: Seq<char>, i: int)
    requires
        keys_increasing(m),
        0 <= i <= m.len(),
        forall|j: int| 0 <= j < i ==> text_lt(#[trigger] m[j].0, k),
        i == m.len() || !text_lt(m[i].0, k),
    ensures
        spec_lookup(m, k) == (if i < m.len() && m[i].0 == k {
            Some(m[i].1)
        } else {
            None::<V>
        }),
    decreases m.len(),
{
    if m.len() > 0 {
        lemma_text_lt_irreflexive(k);
        let t = m.drop_first();
        assert(keys_increasing(t)) by {
            assert forall|a: int, b: int| 0 <= a < b < t.len() implies text_lt(
                #[trigger] t[a].0,
                #[trigger] t[b].0,
            ) by {
                assert(t[a] == m[a + 1] && t[b] == m[b + 1]);
            }
        }
        if i == 0 {
            if m[0].0 != k {
                lemma_text_lt_total(m[0].0, k);
                assert forall|j: int| 0 <= j < t.len() implies t[j].0 != k by {
                    assert(t[j] == m[j + 1]);
                    lemma_text_lt_transitive(k, m[0].0, m[j + 1].0);
                }
                lemma_lookup_absent(t, k);
            }
        } else {
            assert forall|j: int| 0 <= j < i - 1 implies text_lt(#[trigger] t[j].0, k) by {
                assert(t[j] == m[j + 1]);
            }
            lemma_lookup_at(t, k, i - 1);
            if i < m.len() {
                assert(t[i - 1] == m[i]);
            }
        }
    }
}

proof fn lemma_lookup_absent<V>(m: Seq<(Seq<char>, V)>, k: Seq<char>)
    requires
        forall|j: int| 0 <= j < m.len() ==> (#[trigger] m[j]).0 != k,
    ensures
        spec_lookup(m, k) == None::<V>,
    decreases m.len(),
{
    if m.len() > 0 {
        let t = m.drop_first();
        assert forall|j: int| 0 <= j < t.len() implies (#[trigger] t[j]).0 != k by {
            assert(t[j] == m[j + 1]);
        }
        lemma_lookup_absent(t, k);
    }
}

/// Inserting keeps the keys strictly increasing.
pub proof fn lemma_insert_keeps_keys_increasing<V>(m: Seq<(Seq<char>, V)>, k: Seq<char>, v: V)
    requires
        keys_increasing(m),
    ensures
        keys_increasing(spec_insert(m, k, v)),
    decreases m.len(),
{
    if m.len() > 0 && m[0].0 != k {
        let r = spec_insert(m, k, v);
        if text_lt(k, m[0].0) {
            assert forall|i: int, j: int| 0 <= i < j < r.len() implies text_lt(
                #[trigger] r[i].0,
                #[trigger] r[j].0,
            ) by {
                if i == 0 {
                    if j > 1 {
                        lemma_text_lt_transitive(k, m[0].0, m[j - 1].0);
                    }
                } else {
                    assert(r[i] == m[i - 1] && r[j] == m[j - 1]);
                }
            }
        } else {
            let t = m.drop_first();
            lemma_text_lt_total(k, m[0].0);
            assert(keys_increasing(t)) by {
                assert forall|i: int, j: int| 0 <= i < j < t.len() implies text_lt(
                    #[trigger] t[i].0,
                    #[trigger] t[j].0,
                ) by {
                    assert(t[i] == m[i + 1] && t[j] == m[j + 1]);
                }
            }
            lemma_insert_keeps_keys_increasing(t, k, v);
            let rt = spec_insert(t, k, v);
            lemma_insert_keys_from(t, k, v);
            assert forall|i: int, j: int| 0 <= i < j < r.len() implies text_lt(
                #[trigger] r[i].0,
                #[trigger] r[j].0,
            ) by {
                if i == 0 {
                    assert(r[j] == rt[j - 1]);
                    let key = rt[j - 1].0;
                    if key == k {
                    } else {
                        let q = choose|q: int| 0 <= q < t.len() && t[q].0 == key;
                        assert(m[q + 1] == t[q]);
                    }
                } else {
                    assert(r[i] == rt[i - 1] && r[j] == rt[j - 1]);
                }
            }
        }
    }
}

/// Every key after an insertion is the inserted key or a key from before.
proof fn lemma_insert_keys_from<V>(m: Seq<(Seq<char>, V)>, k: Seq<char>, v: V)
    ensures
        forall|j: int|
            0 <= j < spec_insert(m, k, v).len() ==> (#[trigger] spec_insert(m, k, v)[j]).0 == k
                || exists|q: int| 0 <= q < m.len() && m[q].0 == spec_insert(m, k, v)[j].0,
    decreases m.len(),
{
    let r = spec_insert(m, k, v);
    if m.len() == 0 {
    } else if m[0].0 == k {
        assert forall|j: int| 0 <= j < r.len() implies (#[trigger] r[j]).0 == k || exists|q: int|
            0 <= q < m.len() && m[q].0 == r[j].0 by {
            if j > 0 {
                assert(m[j].0 == r[j].0);
            }
        }
    } else if text_lt(k, m[0].0) {
        assert forall|j: int| 0 <= j < r.len() implies (#[trigger] r[j]).0 == k || exists|q: int|
            0 <= q < m.len() && m[q].0 == r[j].0 by {
            if j > 0 {
                assert(m[j - 1].0 == r[j].0);
            }
        }
    } else {
        let t = m.drop_first();
        lemma_insert_keys_from(t, k, v);
        let rt = spec_insert(t, k, v);
        assert forall|j: int| 0 <= j < r.len() implies (#[trigger] r[j]).0 == k || exists|q: int|
            0 <= q < m.len() && m[q].0 == r[j].0 by {
            if j == 0 {
                assert(m[0].0 == r[0].0);
            } else {
                assert(r[j] == rt[j - 1]);
                if rt[j - 1].0 != k {
                    let q = choose|q: int| 0 <= q < t.len() && t[q].0 == rt[j - 1].0;
                    assert(m[q + 1] == t[q]);
                }
            }
        }
    }
}

/// Reading a key back after inserting it gives the value just written, and
/// every other key keeps its value.
pub proof fn lemma_lookup_after_insert<V>(m: Seq<(Seq<char>, V)>, k: Seq<char>, v: V, other: Seq<char>)
    ensures
        spec_lookup(spec_insert(m, k, v), k) == Some(v),
        other != k ==> spec_lookup(spec_insert(m, k, v), other) == spec_lookup(m, other),
    decreases m.len(),
{
    let r = spec_insert(m, k, v);
    if m.len() == 0 {
        assert(r.drop_first() =~= Seq::<(Seq<char>, V)>::empty());
        assert(r[0] == (k, v));
        if other != k {
            assert(spec_lookup(r, other) == spec_lookup(r.drop_first(), other));
        }
    } else if m[0].0 == k {
        assert(r.drop_first() =~= m.drop_first());
        assert(r[0] == (k, v));
        if other != k {
            assert(spec_lookup(r, other) == spec_lookup(r.drop_first(), other));
            assert(spec_lookup(m, other) == spec_lookup(m.drop_first(), other));
        }
    } else if text_lt(k, m[0].0) {
        assert(r.drop_first() =~= m);
        assert(r[0] == (k, v));
    } else {
        lemma_lookup_after_insert(m.drop_first(), k, v, other);
        assert(r.drop_first() =~= spec_insert(m.drop_first(), k, v));
        assert(r[0] == m[0]);
    }
}

impl<V> OrderedMap<V> {
    /// Every map keeps its keys strictly increasing.
    #[verifier::type_invariant]
    pub open spec fn keys_ordered(self) -> bool {
        keys_increasing(self@)
    }

    /// An empty map.
    pub fn new() -> (m: Self)
        ensures
            m@ == Seq::<(Seq<char>, V)>::empty(),
    {
        let m = OrderedMap { entries: Vec::new() };
        assert(m@ =~= Seq::<(Seq<char>, V)>::empty());
        m
    }

    /// The number of entries.
    pub fn len(&self) -> (n: usize)
        ensures
            n == self@.len(),
    {
        self.entries.len()
    }

    /// Whether the map has no entries.
    pub fn is_empty(&self) -> (b: bool)
        ensures
            b == (self@.len() == 0),
    {
        self.entries.len() == 0
    }

    /// The key of the `i`-th entry in key order.
    pub fn key_at(&self, i: usize) -> (k: &String)
        requires
            i < self@.len(),
        ensures
            k@ == self@[i as int].0,
    {
        &self.entries[i].0
    }

    /// The value of the `i`-th entry in key order.
    pub fn value_at(&self, i: usize) -> (v: &V)
        requires
            i < self@.len(),
        ensures
            *v == self@[i as int].1,
    {
        &self.entries[i].1
    }

    /// Stores `value` under `key`, replacing and returning the value that was
    /// stored there before.
    pub fn insert(&mut self, key: String, value: V) -> (prev: Option<V>)
        ensures
            final(self)@ == spec_insert(old(self)@, key@, value),
            keys_increasing(final(self)@),
            prev == spec_lookup(old(self)@, key@),
    {
        proof {
            use_type_invariant(&*self);
        }
        let ghost m = self@;
        let mut entries: Vec<(String, V)> = Vec::new();
        std::mem::swap(&mut entries, &mut self.entries);
        assert(entries@.map_values(|e: (String, V)| (e.0@, e.1)) == m);
        let n = entries.len();
        let mut i: usize = 0;
        while i < n && str_lt(entries[i].0.as_str(), key.as_str())
            invariant
                n == entries@.len(),
                i <= n,
                m == entries@.map_values(|e: (String, V)| (e.0@, e.1)),
                forall|j: int| 0 <= j < i ==> text_lt(#[trigger] m[j].0, key@),
            decreases n - i,
        {
            i = i + 1;
        }
        proof {
            lemma_insert_at(m, key@, value, i as int);
            lemma_insert_keeps_keys_increasing(m, key@, value);
            lemma_lookup_at(m, key@, i as int);
        }
        let prev = if i < n && entries[i].0 == key {
            let old_entry = entries.remove(i);
            entries.insert(i, (key, value));
            Some(old_entry.1)
        } else {
            entries.insert(i, (key, value));
            None
        };
        proof {
            assert(entries@.map_values(|e: (String, V)| (e.0@, e.1)) =~= spec_insert(m, key@, value));
        }
        self.entries = entries;
        prev
    }

    /// Inserts each of `items` in turn, as repeated `insert` calls would.
    pub fn extend(&mut self, items: Vec<(String, V)>)
        ensures
            final(self)@ == spec_insert_all(
                old(self)@,
                items@.map_values(|e: (String, V)| (e.0@, e.1)),
            ),
            keys_increasing(final(self)@),
    {
        let ghost all = items@.map_values(|e: (String, V)| (e.0@, e.1));
        let ghost start = self@;
        let total = items.len();
        let mut rest = items;
        let mut done: usize = 0;
        assert(all.take(0) =~= Seq::<(Seq<char>, V)>::empty());
        assert(rest@ =~= items@.skip(0));
        while rest.len() > 0
            invariant
                done <= items@.len(),
                total == items@.len(),
                all == items@.map_values(|e: (String, V)| (e.0@, e.1)),
                rest@ == items@.skip(done as int),
                self@ == spec_insert_all(start, all.take(done as int)),
            decreases rest.len(),
        {
            assert(done < items@.len());
            let (k, v) = rest.remove(0);
            assert(all.take(done + 1).drop_last() =~= all.take(done as int));
            assert(items@[done as int] == (k, v));
            self.insert(k, v);
            assert(rest@ =~= items@.skip(done + 1));
            done = done + 1;
        }
        assert(all.take(done as int) =~= all);
        proof {
            use_type_invariant(&*self);
        }
    }
}

impl<V: Clone> Clone for OrderedMap<V> {
    /// A copy with the same keys in the same order and each value cloned.
    fn clone(&self) -> (c: Self)
        ensures
            c@.len() == self@.len(),
            forall|i: int|
                0 <= i < self@.len() ==> (#[trigger] c@[i]).0 == self@[i].0 && cloned::<V>(
                    self@[i].1,
                    c@[i].1,
                ),
    {
        proof {
            use_type_invariant(self);
        }
        let mut entries: Vec<(String, V)> = Vec::new();
        let n = self.entries.len();
        for i in 0..n
            invariant
                n == self@.len(),
                entries@.len() == i,
                forall|j: int|
                    0 <= j < i ==> (#[trigger] entries@[j]).0@ == self@[j].0 && cloned::<V>(
                        self@[j].1,
                        entries@[j].1,
                    ),
        {
            let k = self.entries[i].0.clone();
            let v = self.entries[i].1.clone();
            entries.push((k, v));
        }
        let c = OrderedMap { entries };
        assert forall|i: int| 0 <= i < c@.len() implies (#[trigger] c@[i]).0 == self@[i].0 by {}
        c
    }
}

impl<V> Default for OrderedMap<V> {
    /// An empty map.
    fn default() -> (m: Self)
        ensures
            m@ == Seq::<(Seq<char>, V)>::empty(),
    {
        Self::new()
    }
}

} // verus!
