//! A keyed table with string keys that keeps insertion order.
use vstd::prelude::*;

verus! {

/// No key occurs twice.
pub open spec fn keys_unique<T>(s: Seq<(Seq<char>, T)>) -> bool {
    forall|i: int, j: int| 0 <= i < s.len() && 0 <= j < s.len() && i != j ==> #[trigger] s[i].0 != #[trigger] s[j].0
}

pub open spec fn has_key<T>(s: Seq<(Seq<char>, T)>, k: Seq<char>) -> bool {
    exists|i: int| 0 <= i < s.len() && #[trigger] s[i].0 == k
}

/// The position of key `k` in `s`, where it occurs.
pub open spec fn key_index<T>(s: Seq<(Seq<char>, T)>, k: Seq<char>) -> int {
    choose|i: int| 0 <= i < s.len() && #[trigger] s[i].0 == k
}

/// The map from each key to its value.
pub open spec fn seq_to_map<T>(s: Seq<(Seq<char>, T)>) -> Map<Seq<char>, T> {
    Map::new(|k: Seq<char>| has_key(s, k), |k: Seq<char>| s[key_index(s, k)].1)
}

pub proof fn lemma_key_index<T>(s: Seq<(Seq<char>, T)>, i: int)
    requires
        keys_unique(s),
        0 <= i < s.len(),
    ensures
        has_key(s, s[i].0),
        key_index(s, s[i].0) == i,
        seq_to_map(s).contains_key(s[i].0),
        seq_to_map(s)[s[i].0] == s[i].1,
{
    let k = s[i].0;
    assert(has_key(s, k));
    let j = key_index(s, k);
    assert(s[j].0 == k);
}

pub open spec fn view_entries<V: View>(s: Seq<(String, V)>) -> Seq<(Seq<char>, V::V)> {
    s.map_values(|e: (String, V)| (e.0@, e.1@))
}

/// The value of key `k`, if present.
pub open spec fn lookup<T>(s: Seq<(Seq<char>, T)>, k: Seq<char>) -> Option<T> {
    if has_key(s, k) {
        Some(s[key_index(s, k)].1)
    } else {
        None
    }
}

/// `s` with key `k` given value `v`: in place where `k` is present, else at the end.
pub open spec fn put<T>(s: Seq<(Seq<char>, T)>, k: Seq<char>, v: T) -> Seq<(Seq<char>, T)> {
    if has_key(s, k) {
        s.update(key_index(s, k), (k, v))
    } else {
        s.push((k, v))
    }
}

/// `s` without key `k`.
pub open spec fn drop_key<T>(s: Seq<(Seq<char>, T)>, k: Seq<char>) -> Seq<(Seq<char>, T)> {
    if has_key(s, k) {
        s.remove(key_index(s, k))
    } else {
        s
    }
}

/// Entries in insertion order, each key at most once.
pub struct Table<V: View> {
    entries: Vec<(String, V)>,
}

impl<V: View> Table<V> {
    /// The entries, keys and values by their views, in insertion order.
    pub closed spec fn entries(&self) -> Seq<(Seq<char>, V::V)> {
        view_entries(self.entries@)
    }

    #[verifier::type_invariant]
    closed spec fn wf(&self) -> bool {
        keys_unique(self.entries())
    }

    pub fn new() -> (t: Self)
        ensures
            t.entries() == Seq::<(Seq<char>, V::V)>::empty(),
            t@ == Map::<Seq<char>, V::V>::empty(),
    {
        let t = Table { entries: Vec::new() };
        assert(t.entries() =~= Seq::<(Seq<char>, V::V)>::empty());
        assert(t@ =~= Map::<Seq<char>, V::V>::empty());
        t
    }

    pub fn len(&self) -> (n: usize)
        ensures
            n == self.entries().len(),
    {
        self.entries.len()
    }

    pub fn value_at(&self, i: usize) -> (v: &V)
        requires
            i < self.entries().len(),
        ensures
            v@ == self.entries()[i as int].1,
    {
        &self.entries[i].1
    }

    /// The position of key `k`, if present.
    pub fn find(&self, k: &String) -> (r: Option<usize>)
        ensures
            r is None <==> !self@.contains_key(k@),
            r is None <==> lookup(self.entries(), k@) is None,
            r matches Some(i) ==> {
                &&& i as int == key_index(self.entries(), k@)
                &&& lookup(self.entries(), k@) == Some(self.entries()[i as int].1)
                &&& i < self.entries().len()
                &&& self.entries()[i as int].0 == k@
                &&& self@[k@] == self.entries()[i as int].1
            },
    {
        proof {
            use_type_invariant(self);
        }
        let n = self.entries.len();
        for i in 0..n
            invariant
                n == self.entries().len(),
                n == self.entries@.len(),
                keys_unique(self.entries()),
                forall|j: int| 0 <= j < i ==> #[trigger] self.entries()[j].0 != k@,
        {
            if self.entries[i].0 == *k {
                proof {
                    lemma_key_index(self.entries(), i as int);
                }
                return Some(i);
            }
        }
        proof {
            if has_key(self.entries(), k@) {
                let j = key_index(self.entries(), k@);
                assert(self.entries()[j].0 == k@);
            }
        }
        None
    }

    /// Replaces the value at position `i`, keeping its key.
    pub fn set_value(&mut self, i: usize, v: V)
        requires
            i < old(self).entries().len(),
        ensures
            final(self).entries() == old(self).entries().update(
                i as int,
                (old(self).entries()[i as int].0, v@),
            ),
            final(self)@ == old(self)@.insert(old(self).entries()[i as int].0, v@),
    {
        proof {
            use_type_invariant(&*self);
        }
        let ghost before = self.entries();
        let k = self.entries[i].0.clone();
        let ghost k0 = k@;
        let mut entries: Vec<(String, V)> = Vec::new();
        std::mem::swap(&mut entries, &mut self.entries);
        let ghost vv = v@;
        entries.set(i, (k, v));
        proof {
            let after = view_entries(entries@);
            assert(after =~= before.update(i as int, (k0, vv)));
            assert forall|j: int| 0 <= j < after.len() implies #[trigger] after[j].0 == before[j].0 by {}
            assert(keys_unique(after));
        }
        self.entries = entries;
        proof {
            let after = self.entries();
            lemma_key_index(before, i as int);
            assert forall|j: int| 0 <= j < after.len() implies #[trigger] after[j].0 == before[j].0 by {}
            assert forall|kk: Seq<char>| #[trigger] seq_to_map(after).contains_key(kk)
                == (has_key(before, kk) || kk == k0) by {
                if has_key(before, kk) {
                    let j = key_index(before, kk);
                    assert(after[j].0 == kk);
                }
                if has_key(after, kk) {
                    let j = key_index(after, kk);
                    assert(before[j].0 == kk);
                }
            }
            assert forall|kk: Seq<char>| seq_to_map(after).contains_key(kk) implies
                #[trigger] seq_to_map(after)[kk] == seq_to_map(before).insert(k0, vv)[kk] by {
                let j = key_index(after, kk);
                lemma_key_index(after, j);
                if kk != k0 {
                    assert(before[j].0 == kk);
                    lemma_key_index(before, j);
                }
            }
            assert(seq_to_map(after) =~= seq_to_map(before).insert(k0, vv));
        }
    }

    /// Adds `k` at the end, or replaces its value where it is present.
    pub fn insert(&mut self, k: String, v: V)
        ensures
            final(self)@ == old(self)@.insert(k@, v@),
            old(self)@.contains_key(k@) ==> exists|i: int|
                0 <= i < old(self).entries().len() && old(self).entries()[i].0 == k@
                    && final(self).entries() == old(self).entries().update(i, (k@, v@)),
            !old(self)@.contains_key(k@) ==> final(self).entries() == old(self).entries().push((k@, v@)),
            final(self).entries() == put(old(self).entries(), k@, v@),
    {
        match self.find(&k) {
            Some(i) => {
                self.set_value(i, v);
                assert(self.entries() =~= put(old(self).entries(), k@, v@));
            },
            None => {
                proof {
                    use_type_invariant(&*self);
                }
                let ghost before = self.entries();
                let ghost kv = k@;
                let ghost vv = v@;
                let mut entries: Vec<(String, V)> = Vec::new();
                std::mem::swap(&mut entries, &mut self.entries);
                entries.push((k, v));
                proof {
                    let after = view_entries(entries@);
                    assert(after =~= before.push((kv, vv)));
                    assert(!has_key(before, kv));
                    assert forall|i: int, j: int| 0 <= i < after.len() && 0 <= j < after.len() && i != j
                        implies #[trigger] after[i].0 != #[trigger] after[j].0 by {
                        if i == before.len() as int {
                            assert(before[j].0 == after[j].0);
                        } else if j == before.len() as int {
                            assert(before[i].0 == after[i].0);
                        }
                    }
                }
                self.entries = entries;
                proof {
                    let after = self.entries();
                    assert(after =~= before.push((kv, vv)));
                    assert(!has_key(before, kv));
                    assert forall|i: int, j: int| 0 <= i < after.len() && 0 <= j < after.len() && i != j
                        implies #[trigger] after[i].0 != #[trigger] after[j].0 by {
                        if i == before.len() as int {
                            assert(before[j].0 == after[j].0);
                        } else if j == before.len() as int {
                            assert(before[i].0 == after[i].0);
                        }
                    }
                    assert(keys_unique(after));
                    lemma_key_index(after, before.len() as int);
                    assert forall|kk: Seq<char>| #[trigger] seq_to_map(after).contains_key(kk)
                        == (seq_to_map(before).contains_key(kk) || kk == kv) by {
                        if has_key(before, kk) {
                            let j = key_index(before, kk);
                            assert(after[j].0 == kk);
                        }
                        if has_key(after, kk) && kk != kv {
                            let j = key_index(after, kk);
                            assert(before[j].0 == kk);
                        }
                    }
                    assert forall|kk: Seq<char>| seq_to_map(after).contains_key(kk) implies
                        #[trigger] seq_to_map(after)[kk] == seq_to_map(before).insert(kv, vv)[kk] by {
                        let j = key_index(after, kk);
                        lemma_key_index(after, j);
                        if kk != kv {
                            assert(before[j].0 == kk);
                            lemma_key_index(before, j);
                        }
                    }
                    assert(seq_to_map(after) =~= seq_to_map(before).insert(kv, vv));
                    assert(after =~= put(before, kv, vv));
                }
            },
        }
    }

    /// Takes out the entry of key `k`, if present.
    pub fn remove(&mut self, k: &String) -> (r: Option<V>)
        ensures
            match r {
                Some(v) => {
                    &&& old(self)@.contains_key(k@)
                    &&& v@ == old(self)@[k@]
                    &&& final(self)@ == old(self)@.remove(k@)
                    &&& exists|i: int| 0 <= i < old(self).entries().len() && old(self).entries()[i].0 == k@
                        && final(self).entries() == old(self).entries().remove(i)
                },
                None => {
                    &&& !old(self)@.contains_key(k@)
                    &&& final(self).entries() == old(self).entries()
                },
            },
            final(self).entries() == drop_key(old(self).entries(), k@),
            r matches Some(v) ==> lookup(old(self).entries(), k@) == Some(v@),
            r is None <==> lookup(old(self).entries(), k@) is None,
    {
        match self.find(k) {
            None => None,
            Some(i) => {
                proof {
                    use_type_invariant(&*self);
                }
                let ghost before = self.entries();
                let mut entries: Vec<(String, V)> = Vec::new();
                std::mem::swap(&mut entries, &mut self.entries);
                let (_kk, v) = entries.remove(i);
                proof {
                    let after = view_entries(entries@);
                    assert(after =~= before.remove(i as int));
                    assert forall|a: int, b: int| 0 <= a < after.len() && 0 <= b < after.len() && a != b
                        implies #[trigger] after[a].0 != #[trigger] after[b].0 by {
                        let a0 = if a < i { a } else { a + 1 };
                        let b0 = if b < i { b } else { b + 1 };
                        assert(after[a] == before[a0]);
                        assert(after[b] == before[b0]);
                    }
                }
                self.entries = entries;
                proof {
                    let after = self.entries();
                    assert(after =~= before.remove(i as int));
                    assert forall|a: int, b: int| 0 <= a < after.len() && 0 <= b < after.len() && a != b
                        implies #[trigger] after[a].0 != #[trigger] after[b].0 by {
                        let a0 = if a < i { a } else { a + 1 };
                        let b0 = if b < i { b } else { b + 1 };
                        assert(after[a] == before[a0]);
                        assert(after[b] == before[b0]);
                    }
                    assert(keys_unique(after));
                    assert forall|kk: Seq<char>| #[trigger] seq_to_map(after).contains_key(kk)
                        == (seq_to_map(before).contains_key(kk) && kk != k@) by {
                        if has_key(before, kk) && kk != k@ {
                            let j = key_index(before, kk);
                            let j2 = if j < i { j } else { j - 1 };
                            assert(j != i);
                            assert(after[j2].0 == kk);
                        }
                        if has_key(after, kk) {
                            let j = key_index(after, kk);
                            let j0 = if j < i { j } else { j + 1 };
                            assert(before[j0].0 == kk);
                            lemma_key_index(before, i as int);
                        }
                    }
                    assert forall|kk: Seq<char>| seq_to_map(after).contains_key(kk) implies
                        #[trigger] seq_to_map(after)[kk] == seq_to_map(before).remove(k@)[kk] by {
                        let j = key_index(after, kk);
                        lemma_key_index(after, j);
                        let j0 = if j < i { j } else { j + 1 };
                        assert(before[j0].0 == kk);
                        lemma_key_index(before, j0);
                    }
                    assert(seq_to_map(after) =~= seq_to_map(before).remove(k@));
                    assert(after =~= drop_key(before, k@));
                }
                Some(v)
            },
        }
    }
}

impl<V: View> View for Table<V> {
    type V = Map<Seq<char>, V::V>;

    /// Each key with its value.
    open spec fn view(&self) -> Map<Seq<char>, V::V> {
        seq_to_map(self.entries())
    }
}

pub proof fn lemma_lookup<T>(s: Seq<(Seq<char>, T)>, k: Seq<char>)
    ensures
        lookup(s, k) is None <==> !has_key(s, k),
        seq_to_map(s).contains_key(k) == has_key(s, k),
        lookup(s, k) matches Some(v) ==> {
            &&& 0 <= key_index(s, k) < s.len()
            &&& s[key_index(s, k)] == (k, v)
            &&& seq_to_map(s)[k] == v
        },
{
    if has_key(s, k) {
        let i = key_index(s, k);
        assert(s[i].0 == k);
    }
}

pub proof fn lemma_put<T>(s: Seq<(Seq<char>, T)>, k: Seq<char>, v: T)
    requires
        keys_unique(s),
    ensures
        keys_unique(put(s, k, v)),
        put(s, k, v).len() >= s.len(),
        forall|i: int| 0 <= i < put(s, k, v).len() ==> #[trigger] put(s, k, v)[i] == (k, v) || (i
            < s.len() && put(s, k, v)[i] == s[i]),
        seq_to_map(put(s, k, v)) == seq_to_map(s).insert(k, v),
        lookup(put(s, k, v), k) == Some(v),
        forall|kk: Seq<char>| kk != k ==> #[trigger] lookup(put(s, k, v), kk) == lookup(s, kk),
{
    let p = put(s, k, v);
    if has_key(s, k) {
        let ki = key_index(s, k);
        assert(s[ki].0 == k);
        assert forall|j: int| 0 <= j < p.len() implies #[trigger] p[j].0 == s[j].0 by {}
    } else {
        assert forall|i: int, j: int| 0 <= i < p.len() && 0 <= j < p.len() && i != j
            implies #[trigger] p[i].0 != #[trigger] p[j].0 by {
            if i == s.len() as int {
                assert(s[j].0 == p[j].0);
            } else if j == s.len() as int {
                assert(s[i].0 == p[i].0);
            }
        }
    }
    assert(keys_unique(p));
    assert(has_key(p, k)) by {
        if has_key(s, k) {
            assert(p[key_index(s, k)].0 == k);
        } else {
            assert(p[s.len() as int].0 == k);
        }
    }
    let pk = key_index(p, k);
    assert(p[pk].0 == k);
    assert forall|kk: Seq<char>| #[trigger] has_key(p, kk) == (has_key(s, kk) || kk == k) by {
        if has_key(s, kk) {
            let j = key_index(s, kk);
            assert(p[j].0 == kk || p[j].0 == k);
            if p[j].0 != kk {
                assert(kk == k) by {
                    assert(s[j].0 == k);
                }
            }
        }
        if has_key(p, kk) && kk != k {
            let j = key_index(p, kk);
            assert(s[j].0 == kk);
        }
    }
    assert forall|kk: Seq<char>| has_key(p, kk) implies #[trigger] p[key_index(p, kk)].1 == seq_to_map(s).insert(k, v)[kk] by {
        let j = key_index(p, kk);
        lemma_key_index(p, j);
        if kk != k {
            assert(s[j].0 == kk);
            lemma_key_index(s, j);
        }
    }
    assert(seq_to_map(p) =~= seq_to_map(s).insert(k, v));
    assert forall|kk: Seq<char>| kk != k implies #[trigger] lookup(p, kk) == lookup(s, kk) by {
        if has_key(p, kk) {
            let j = key_index(p, kk);
            lemma_key_index(p, j);
            assert(s[j].0 == kk);
            lemma_key_index(s, j);
        }
    }
}

pub proof fn lemma_drop<T>(s: Seq<(Seq<char>, T)>, k: Seq<char>)
    requires
        keys_unique(s),
    ensures
        keys_unique(drop_key(s, k)),
        forall|i: int| 0 <= i < drop_key(s, k).len() ==> #[trigger] drop_key(s, k)[i] == s[i] || drop_key(s, k)[i] == s[i + 1],
        seq_to_map(drop_key(s, k)) == seq_to_map(s).remove(k),
        lookup(drop_key(s, k), k) is None,
        forall|kk: Seq<char>| kk != k ==> #[trigger] lookup(drop_key(s, k), kk) == lookup(s, kk),
{
    let d = drop_key(s, k);
    if has_key(s, k) {
        let i = key_index(s, k);
        assert(s[i].0 == k);
        assert forall|a: int| 0 <= a < d.len() implies #[trigger] d[a] == s[if a < i { a } else { a + 1 }] by {}
        assert forall|a: int, b: int| 0 <= a < d.len() && 0 <= b < d.len() && a != b
            implies #[trigger] d[a].0 != #[trigger] d[b].0 by {
            assert(d[a] == s[if a < i { a } else { a + 1 }]);
            assert(d[b] == s[if b < i { b } else { b + 1 }]);
        }
        assert forall|kk: Seq<char>| #[trigger] has_key(d, kk) == (has_key(s, kk) && kk != k) by {
            if has_key(s, kk) && kk != k {
                let j = key_index(s, kk);
                assert(j != i);
                let j2 = if j < i { j } else { j - 1 };
                assert(d[j2].0 == kk);
            }
            if has_key(d, kk) {
                let j = key_index(d, kk);
                let j0 = if j < i { j } else { j + 1 };
                assert(s[j0].0 == kk);
                assert(j0 != i);
            }
        }
        assert forall|kk: Seq<char>| has_key(d, kk) implies #[trigger] d[key_index(d, kk)].1 == s[key_index(s, kk)].1 by {
            let j = key_index(d, kk);
            lemma_key_index(d, j);
            let j0 = if j < i { j } else { j + 1 };
            assert(s[j0].0 == kk);
            lemma_key_index(s, j0);
        }
        assert(seq_to_map(d) =~= seq_to_map(s).remove(k));
        assert forall|kk: Seq<char>| kk != k implies #[trigger] lookup(d, kk) == lookup(s, kk) by {}
    } else {
        assert(seq_to_map(d) =~= seq_to_map(s).remove(k));
    }
}

} // verus!
