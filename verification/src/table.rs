//! A small verified key-value table, used by the registries to hold their
//! storage mappings in memory.
//!
//! The table is an association list with pairwise-distinct keys; its
//! abstraction is a finite `Map`. Keys are plain copyable values that can be
//! compared for equality in executable code (`TableKey`).

use vstd::prelude::*;

verus! {

/// A key of a [`Table`]: a plain value with a decidable equality.
pub trait TableKey: Sized + Copy {
    /// Equality test used by the table lookups.
    fn key_eq(self, other: Self) -> (r: bool)
        ensures
            r <==> self == other,
    ;
}

impl TableKey for u32 {
    fn key_eq(self, other: Self) -> (r: bool) {
        self == other
    }
}

impl TableKey for u64 {
    fn key_eq(self, other: Self) -> (r: bool) {
        self == other
    }
}

impl TableKey for crate::types::ApprovalPair {
    fn key_eq(self, other: Self) -> (r: bool) {
        self.owner == other.owner && self.operator == other.operator
    }
}

/// The `Map` described by an association list.
pub open spec fn table_view<K, V>(s: Seq<(K, V)>) -> Map<K, V> {
    Map::new(
        |k: K| exists|i: int| 0 <= i < s.len() && s[i].0 == k,
        |k: K| s[choose|i: int| 0 <= i < s.len() && s[i].0 == k].1,
    )
}

/// The keys of an association list are pairwise distinct.
pub open spec fn distinct_keys<K, V>(s: Seq<(K, V)>) -> bool {
    forall|i: int, j: int| 0 <= i < j < s.len() ==> s[i].0 != s[j].0
}

/// An entry of an association list with distinct keys is the entry the view
/// reports for its key.
pub proof fn lemma_table_view_index<K, V>(s: Seq<(K, V)>, i: int)
    requires
        distinct_keys(s),
        0 <= i < s.len(),
    ensures
        table_view(s).contains_key(s[i].0),
        table_view(s)[s[i].0] == s[i].1,
{
    assert(table_view(s).contains_key(s[i].0));
    let j = choose|j: int| 0 <= j < s.len() && s[j].0 == s[i].0;
    assert(j == i);
}

/// The domain of a table view is finite: it is the set of keys of the list.
pub proof fn lemma_table_view_finite<K, V>(s: Seq<(K, V)>)
    ensures
        table_view(s).dom().finite(),
{
    let keys = s.map_values(|p: (K, V)| p.0);
    assert forall|k: K| table_view(s).dom().contains(k) <==> keys.to_set().contains(k) by {
        if table_view(s).dom().contains(k) {
            let i = choose|i: int| 0 <= i < s.len() && s[i].0 == k;
            assert(keys[i] == k);
        }
        if keys.to_set().contains(k) {
            let i = choose|i: int| 0 <= i < keys.len() && keys[i] == k;
            assert(s[i].0 == k);
        }
    }
    assert(table_view(s).dom() =~= keys.to_set());
    keys.lemma_cardinality_of_set();
}

/// Appending a fresh key describes an insertion in the view.
pub proof fn lemma_table_view_push<K, V>(s: Seq<(K, V)>, k: K, v: V)
    requires
        distinct_keys(s),
        !table_view(s).contains_key(k),
    ensures
        distinct_keys(s.push((k, v))),
        table_view(s.push((k, v))) == table_view(s).insert(k, v),
{
    let t = s.push((k, v));
    let m1 = table_view(t);
    let m2 = table_view(s).insert(k, v);
    assert forall|i: int, j: int| 0 <= i < j < t.len() implies t[i].0 != t[j].0 by {
        if j == s.len() {
            assert(t[i] == s[i]);
        }
    }
    assert forall|k2: K| m1.contains_key(k2) implies m2.contains_key(k2) && m1[k2] == m2[k2] by {
        if k2 == k {
            lemma_table_view_index(t, s.len() as int);
        } else {
            let i = choose|i: int| 0 <= i < t.len() && t[i].0 == k2;
            assert(t[i] == s[i]);
            lemma_table_view_index(s, i);
            lemma_table_view_index(t, i);
        }
    }
    assert forall|k2: K| m2.contains_key(k2) implies m1.contains_key(k2) by {
        if k2 == k {
            assert(t[s.len() as int].0 == k);
        } else {
            let i = choose|i: int| 0 <= i < s.len() && s[i].0 == k2;
            assert(t[i].0 == k2);
        }
    }
    assert(m1 =~= m2);
}

/// Removing the entry at an index describes a removal of its key in the view.
pub proof fn lemma_table_view_remove<K, V>(s: Seq<(K, V)>, i: int)
    requires
        distinct_keys(s),
        0 <= i < s.len(),
    ensures
        distinct_keys(s.remove(i)),
        table_view(s.remove(i)) == table_view(s).remove(s[i].0),
{
    let t = s.remove(i);
    let k = s[i].0;
    let m1 = table_view(t);
    let m2 = table_view(s).remove(k);
    // index j of t corresponds to index (if j < i { j } else { j + 1 }) of s
    assert forall|j: int, l: int| 0 <= j < l < t.len() implies t[j].0 != t[l].0 by {
        let js = if j < i { j } else { j + 1 };
        let ls = if l < i { l } else { l + 1 };
        assert(t[j] == s[js] && t[l] == s[ls]);
    }
    assert forall|k2: K| m1.contains_key(k2) implies m2.contains_key(k2) && m1[k2] == m2[k2] by {
        let j = choose|j: int| 0 <= j < t.len() && t[j].0 == k2;
        let js = if j < i { j } else { j + 1 };
        assert(t[j] == s[js]);
        assert(k2 != k);
        lemma_table_view_index(s, js);
        lemma_table_view_index(t, j);
    }
    assert forall|k2: K| m2.contains_key(k2) implies m1.contains_key(k2) by {
        let js = choose|js: int| 0 <= js < s.len() && s[js].0 == k2;
        let j = if js < i { js } else { js - 1 };
        assert(t[j] == s[js]);
    }
    assert(m1 =~= m2);
}

/// An in-memory mapping with copyable keys, abstracted as a finite `Map`.
pub struct Table<K, V> {
    entries: Vec<(K, V)>,
}

impl<K: TableKey, V> Table<K, V> {
    /// The keys of the underlying list are pairwise distinct.
    pub closed spec fn wf(&self) -> bool {
        distinct_keys(self.entries@)
    }

    /// An empty table.
    pub fn new() -> (t: Self)
        ensures
            t.wf(),
            t@ == Map::<K, V>::empty(),
    {
        let t = Table { entries: Vec::new() };
        proof {
            assert(table_view(t.entries@) =~= Map::<K, V>::empty());
        }
        t
    }

    /// The position of the entry with the given key, if any.
    fn index_of(&self, k: K) -> (r: Option<usize>)
        ensures
            match r {
                Some(i) => i < self.entries@.len() && self.entries@[i as int].0 == k,
                None => !self@.contains_key(k),
            },
    {
        let mut i: usize = 0;
        while i < self.entries.len()
            invariant
                i <= self.entries@.len(),
                forall|j: int| 0 <= j < i ==> self.entries@[j].0 != k,
            decreases self.entries@.len() - i,
        {
            if self.entries[i].0.key_eq(k) {
                return Some(i);
            }
            i += 1;
        }
        None
    }

    /// Whether the table holds an entry for `k`.
    pub fn contains_key(&self, k: K) -> (r: bool)
        requires
            self.wf(),
        ensures
            r == self@.contains_key(k),
    {
        match self.index_of(k) {
            Some(i) => {
                proof {
                    lemma_table_view_index(self.entries@, i as int);
                }
                true
            },
            None => false,
        }
    }

    /// The value the table holds for `k`, if any.
    pub fn get(&self, k: K) -> (r: Option<&V>)
        requires
            self.wf(),
        ensures
            match r {
                Some(v) => self@.contains_key(k) && *v == self@[k],
                None => !self@.contains_key(k),
            },
    {
        match self.index_of(k) {
            Some(i) => {
                proof {
                    lemma_table_view_index(self.entries@, i as int);
                }
                Some(&self.entries[i].1)
            },
            None => None,
        }
    }

    /// Inserts `v` under `k`, replacing any entry the key already has.
    pub fn insert(&mut self, k: K, v: V)
        requires
            old(self).wf(),
        ensures
            final(self).wf(),
            final(self)@ == old(self)@.insert(k, v),
    {
        let ghost s0 = self.entries@;
        match self.index_of(k) {
            Some(i) => {
                self.entries.remove(i);
                proof {
                    lemma_table_view_remove(s0, i as int);
                }
            },
            None => {},
        }
        let ghost s1 = self.entries@;
        self.entries.push((k, v));
        proof {
            lemma_table_view_push(s1, k, v);
            assert(table_view(s1).insert(k, v) =~= table_view(s0).insert(k, v));
        }
    }

    /// Removes the entry for `k`, if any.
    pub fn remove(&mut self, k: K)
        requires
            old(self).wf(),
        ensures
            final(self).wf(),
            final(self)@ == old(self)@.remove(k),
    {
        let ghost s0 = self.entries@;
        match self.index_of(k) {
            Some(i) => {
                self.entries.remove(i);
                proof {
                    lemma_table_view_remove(s0, i as int);
                }
            },
            None => {
                proof {
                    assert(table_view(s0).remove(k) =~= table_view(s0));
                }
            },
        }
    }
}

impl<K, V> View for Table<K, V> {
    type V = Map<K, V>;

    closed spec fn view(&self) -> Map<K, V> {
        table_view(self.entries@)
    }
}

/// The domain of a well-formed table is finite.
pub proof fn lemma_table_dom_finite<K, V>(t: Table<K, V>)
    ensures
        t@.dom().finite(),
{
    lemma_table_view_finite(t.entries@);
}

} // verus!
