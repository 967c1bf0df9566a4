//! Keyed stores. `IdMap` holds integer-keyed tables (the job-refresh
//! registry, the per-repository state tables, the per-workflow and per-run
//! parts of the data cache) in a std `HashMap`. `AssocMap` is a small
//! association list for text keys (the repositories of the data cache),
//! where equality of keys is decided by comparing their characters.
use crate::text::str_eq;
use std::collections::HashMap;
use vstd::prelude::*;
use vstd::std_specs::hash::spec_keys_iter;
use vstd::std_specs::iter::IteratorSpec;

verus! {

/// Keys that can be compared for equality at run time, agreeing with their
/// views.
pub trait MapKey: View + Sized {
    fn key_eq(&self, other: &Self) -> (same: bool)
        ensures
            same == (self@ == other@),
    ;
}

impl MapKey for i64 {
    fn key_eq(&self, other: &i64) -> (same: bool) {
        *self == *other
    }
}

impl MapKey for String {
    fn key_eq(&self, other: &String) -> (same: bool) {
        str_eq(self.as_str(), other.as_str())
    }
}

/// Some entry of `s` carries a key whose view is `k`.
pub open spec fn has_key<K: View, V>(s: Seq<(K, V)>, k: K::V) -> bool {
    exists|t: int| 0 <= t < s.len() && (#[trigger] s[t]).0@ == k
}

/// No two entries of `s` carry keys with the same view.
pub open spec fn keys_unique<K: View, V>(s: Seq<(K, V)>) -> bool {
    forall|i: int, j: int| 0 <= i < s.len() && 0 <= j < s.len() && i != j ==> (#[trigger] s[i]).0@
        != (#[trigger] s[j]).0@
}

/// The map that a list of entries denotes: each key maps to the value of the
/// entry that carries it.
pub open spec fn entries_view<K: View, V>(s: Seq<(K, V)>) -> Map<K::V, V> {
    Map::new(
        |k: K::V| has_key(s, k),
        |k: K::V| s[choose|t: int| 0 <= t < s.len() && (#[trigger] s[t]).0@ == k].1,
    )
}

/// With unique keys, the denoted map holds exactly the listed entries.
pub proof fn lemma_entries_view<K: View, V>(s: Seq<(K, V)>)
    requires
        keys_unique(s),
    ensures
        forall|t: int|
            0 <= t < s.len() ==> #[trigger] entries_view(s).contains_key(s[t].0@) && entries_view(
                s,
            )[s[t].0@] == s[t].1,
        forall|k: K::V| #[trigger] entries_view(s).contains_key(k) <==> has_key(s, k),
{
    assert forall|t: int| 0 <= t < s.len() implies #[trigger] entries_view(s).contains_key(
        s[t].0@,
    ) && entries_view(s)[s[t].0@] == s[t].1 by {
        assert(has_key(s, s[t].0@));
        let c = choose|u: int| 0 <= u < s.len() && (#[trigger] s[u]).0@ == s[t].0@;
        assert(c == t);
    }
}

/// The set of key views of a list of keys.
pub open spec fn key_set<K: View>(s: Seq<K>) -> Set<K::V> {
    Set::new(|k: K::V| exists|i: int| 0 <= i < s.len() && (#[trigger] s[i])@ == k)
}

/// Whether some key of `keys` equals `k`.
pub fn is_listed<K: MapKey>(keys: &Vec<K>, k: &K) -> (found: bool)
    ensures
        found == key_set(keys@).contains(k@),
{
    let mut i: usize = 0;
    while i < keys.len()
        invariant
            i <= keys@.len(),
            forall|t: int| 0 <= t < i ==> (#[trigger] keys@[t])@ != k@,
        decreases keys@.len() - i,
    {
        if keys[i].key_eq(k) {
            return true;
        }
        i = i + 1;
    }
    false
}

/// `e` is an entry of `orig` at or after position `from`, with a listed key.
pub open spec fn drawn_from<K: View, V>(orig: Seq<(K, V)>, from: int, e: (K, V), listed: Set<K::V>) -> bool {
    listed.contains(e.0@) && exists|u: int| from <= u < orig.len() && orig[u] == e
}

/// `e` is one of the entries of `s`.
pub open spec fn has_entry<K, V>(s: Seq<(K, V)>, e: (K, V)) -> bool {
    exists|t: int| 0 <= t < s.len() && s[t] == e
}

/// A finite map stored as a list of entries with pairwise distinct keys.
pub struct AssocMap<K: MapKey, V> {
    entries: Vec<(K, V)>,
}

impl<K: MapKey, V> View for AssocMap<K, V> {
    type V = Map<K::V, V>;

    closed spec fn view(&self) -> Map<K::V, V> {
        entries_view(self.entries@)
    }
}

impl<K: MapKey, V> AssocMap<K, V> {
    #[verifier::type_invariant]
    closed spec fn inv(self) -> bool {
        keys_unique(self.entries@)
    }

    /// The entries in storage order.
    pub closed spec fn entries(self) -> Seq<(K, V)> {
        self.entries@
    }

    pub fn new() -> (m: Self)
        ensures
            m@ == Map::<K::V, V>::empty(),
            m.entries().len() == 0,
    {
        let m = AssocMap { entries: Vec::new() };
        assert(m@ =~= Map::<K::V, V>::empty());
        m
    }

    /// Number of entries; also states that the map holds exactly its
    /// entries, each key once.
    pub fn len(&self) -> (n: usize)
        ensures
            n == self.entries().len(),
            keys_unique(self.entries()),
            self@ == entries_view(self.entries()),
            forall|t: int|
                0 <= t < self.entries().len() ==> #[trigger] self@.contains_key(
                    self.entries()[t].0@,
                ) && self@[self.entries()[t].0@] == self.entries()[t].1,
            forall|k: K::V| #[trigger] self@.contains_key(k) <==> has_key(self.entries(), k),
    {
        proof {
            use_type_invariant(self);
            lemma_entries_view(self.entries@);
        }
        self.entries.len()
    }

    /// The entry stored at position `i`.
    pub fn entry_at(&self, i: usize) -> (e: &(K, V))
        requires
            i < self.entries().len(),
        ensures
            *e == self.entries()[i as int],
    {
        &self.entries[i]
    }

    /// Position of the entry with key `k`, if any.
    fn find(&self, k: &K) -> (pos: Option<usize>)
        ensures
            match pos {
                Some(i) => i < self.entries@.len() && self.entries@[i as int].0@ == k@,
                None => !has_key(self.entries@, k@),
            },
    {
        let mut i: usize = 0;
        while i < self.entries.len()
            invariant
                i <= self.entries@.len(),
                forall|t: int| 0 <= t < i ==> (#[trigger] self.entries@[t]).0@ != k@,
            decreases self.entries@.len() - i,
        {
            if self.entries[i].0.key_eq(k) {
                return Some(i);
            }
            i = i + 1;
        }
        None
    }

    pub fn contains_key(&self, k: &K) -> (found: bool)
        ensures
            found == self@.contains_key(k@),
    {
        proof {
            use_type_invariant(self);
            lemma_entries_view(self.entries@);
        }
        self.find(k).is_some()
    }

    pub fn get(&self, k: &K) -> (r: Option<&V>)
        ensures
            match r {
                Some(v) => self@.contains_key(k@) && *v == self@[k@],
                None => !self@.contains_key(k@),
            },
    {
        proof {
            use_type_invariant(self);
            lemma_entries_view(self.entries@);
        }
        match self.find(k) {
            Some(i) => Some(&self.entries[i].1),
            None => None,
        }
    }

    /// Sets the value of `k`, replacing any previous one.
    pub fn insert(&mut self, k: K, v: V)
        ensures
            final(self)@ == old(self)@.insert(k@, v),
    {
        proof {
            use_type_invariant(&*self);
            lemma_entries_view(self.entries@);
        }
        let ghost old_entries = self.entries@;
        let ghost kv = k@;
        let ghost mut pos: int = 0;
        match self.find(&k) {
            Some(i) => {
                proof {
                    pos = i as int;
                }
                let mut entries: Vec<(K, V)> = Vec::new();
                std::mem::swap(&mut entries, &mut self.entries);
                entries.set(i, (k, v));
                self.entries = entries;
                proof {
                    let s = self.entries@;
                    assert(s =~= old_entries.update(i as int, s[i as int]));
                    assert forall|a: int, b: int|
                        0 <= a < s.len() && 0 <= b < s.len() && a != b implies (#[trigger] s[a]).0@
                        != (#[trigger] s[b]).0@ by {
                        if a != i && b != i {
                            assert(s[a] == old_entries[a] && s[b] == old_entries[b]);
                        } else if a == i {
                            assert(old_entries[b].0@ != old_entries[a].0@);
                        } else {
                            assert(old_entries[a].0@ != old_entries[b].0@);
                        }
                    }
                }
            },
            None => {
                proof {
                    pos = old_entries.len() as int;
                }
                let mut entries: Vec<(K, V)> = Vec::new();
                std::mem::swap(&mut entries, &mut self.entries);
                entries.push((k, v));
                self.entries = entries;
                proof {
                    let s = self.entries@;
                    assert forall|a: int, b: int|
                        0 <= a < s.len() && 0 <= b < s.len() && a != b implies (#[trigger] s[a]).0@
                        != (#[trigger] s[b]).0@ by {
                        if a < old_entries.len() && b < old_entries.len() {
                            assert(s[a] == old_entries[a] && s[b] == old_entries[b]);
                        } else if a < old_entries.len() {
                            assert(s[a] == old_entries[a]);
                        } else {
                            assert(s[b] == old_entries[b]);
                        }
                    }
                }
            },
        }
        proof {
            let s = self.entries@;
            assert(0 <= pos < s.len() && s[pos].0@ == kv && s[pos].1 == v);
            lemma_entries_view(s);
            let expected = entries_view(old_entries).insert(kv, v);
            assert forall|key: K::V| #[trigger] entries_view(s).contains_key(key)
                == expected.contains_key(key) by {
                if has_key(s, key) {
                    let t = choose|t: int| 0 <= t < s.len() && (#[trigger] s[t]).0@ == key;
                    if key != kv {
                        assert(old_entries[t] == s[t]);
                    }
                }
                if key != kv && has_key(old_entries, key) {
                    let t = choose|t: int|
                        0 <= t < old_entries.len() && (#[trigger] old_entries[t]).0@ == key;
                    assert(s[t] == old_entries[t]);
                }
                if key == kv {
                    assert(has_key(s, key)) by {
                        assert(s[pos].0@ == kv);
                    }
                }
            }
            assert(entries_view(s) =~= expected) by {
                assert forall|key: K::V| #[trigger] entries_view(s).contains_key(key) implies entries_view(s)[key]
                    == expected[key] by {
                    let t = choose|t: int| 0 <= t < s.len() && (#[trigger] s[t]).0@ == key;
                    if key != kv {
                        assert(old_entries[t] == s[t]);
                    } else {
                        assert(entries_view(s)[s[pos].0@] == s[pos].1);
                    }
                }
            }
        }
    }

    /// Removes the entry for `k`, handing back its value if it was present.
    pub fn remove(&mut self, k: &K) -> (r: Option<V>)
        ensures
            match r {
                Some(v) => old(self)@.contains_key(k@) && v == old(self)@[k@] && final(self)@
                    == old(self)@.remove(k@),
                None => !old(self)@.contains_key(k@) && final(self)@ == old(self)@,
            },
    {
        proof {
            use_type_invariant(&*self);
            lemma_entries_view(self.entries@);
        }
        let ghost old_entries = self.entries@;
        match self.find(k) {
            Some(i) => {
                let mut entries: Vec<(K, V)> = Vec::new();
                std::mem::swap(&mut entries, &mut self.entries);
                let (_key, v) = entries.remove(i);
                self.entries = entries;
                proof {
                    let s = self.entries@;
                    assert(s =~= old_entries.remove(i as int));
                    assert forall|a: int, b: int|
                        0 <= a < s.len() && 0 <= b < s.len() && a != b implies (#[trigger] s[a]).0@
                        != (#[trigger] s[b]).0@ by {
                        let oa = if a < i { a } else { a + 1 };
                        let ob = if b < i { b } else { b + 1 };
                        assert(s[a] == old_entries[oa] && s[b] == old_entries[ob]);
                    }
                    lemma_entries_view(s);
                    let expected = entries_view(old_entries).remove(k@);
                    assert forall|key: K::V| #[trigger] entries_view(s).contains_key(key)
                        == expected.contains_key(key) by {
                        if has_key(s, key) {
                            let t = choose|t: int| 0 <= t < s.len() && (#[trigger] s[t]).0@ == key;
                            let ot = if t < i { t } else { t + 1 };
                            assert(s[t] == old_entries[ot]);
                        }
                        if key != k@ && has_key(old_entries, key) {
                            let t = choose|t: int|
                                0 <= t < old_entries.len() && (#[trigger] old_entries[t]).0@
                                    == key;
                            assert(t != i);
                            let st = if t < i { t } else { t - 1 };
                            assert(s[st] == old_entries[t]);
                        }
                    }
                    assert(entries_view(s) =~= expected) by {
                        assert forall|key: K::V| #[trigger] entries_view(s).contains_key(key) implies entries_view(s)[key]
                            == expected[key] by {
                            let t = choose|t: int| 0 <= t < s.len() && (#[trigger] s[t]).0@ == key;
                            let ot = if t < i { t } else { t + 1 };
                            assert(s[t] == old_entries[ot]);
                        }
                    }
                }
                Some(v)
            },
            None => None,
        }
    }

    /// Keeps only the entries whose key is listed in `keep`.
    pub fn retain_listed(&mut self, keep: &Vec<K>)
        ensures
            final(self)@ == old(self)@.restrict(key_set(keep@)),
    {
        proof {
            use_type_invariant(&*self);
        }
        let mut rest: Vec<(K, V)> = Vec::new();
        std::mem::swap(&mut rest, &mut self.entries);
        let ghost orig = rest@;
        let ghost listed = key_set(keep@);
        let mut kept: Vec<(K, V)> = Vec::new();
        while rest.len() > 0
            invariant
                keys_unique(orig),
                listed == key_set(keep@),
                rest@ == orig.take(rest@.len() as int),
                rest@.len() <= orig.len(),
                keys_unique(kept@),
                forall|t: int|
                    0 <= t < kept@.len() ==> drawn_from(orig, rest@.len() as int, #[trigger] kept@[t], listed),
                forall|u: int|
                    rest@.len() <= u < orig.len() && listed.contains((#[trigger] orig[u]).0@)
                        ==> has_entry(kept@, orig[u]),
            decreases rest@.len(),
        {
            let ghost n = rest@.len() as int;
            let ghost before = kept@;
            let e = rest.pop().unwrap();
            assert(e == orig[n - 1]);
            assert(rest@ =~= orig.take(n - 1));
            if is_listed(keep, &e.0) {
                kept.push(e);
                proof {
                    let s = kept@;
                    assert forall|a: int, b: int|
                        0 <= a < s.len() && 0 <= b < s.len() && a != b implies (#[trigger] s[a]).0@
                        != (#[trigger] s[b]).0@ by {
                        if a < before.len() && b < before.len() {
                            assert(s[a] == before[a] && s[b] == before[b]);
                        } else if a < before.len() {
                            assert(s[a] == before[a]);
                            assert(drawn_from(orig, n, before[a], listed));
                            let u = choose|u: int| n <= u < orig.len() && orig[u] == before[a];
                            assert(s[b] == orig[n - 1]);
                        } else {
                            assert(s[b] == before[b]);
                            assert(drawn_from(orig, n, before[b], listed));
                            let u = choose|u: int| n <= u < orig.len() && orig[u] == before[b];
                            assert(s[a] == orig[n - 1]);
                        }
                    }
                    assert forall|t: int| 0 <= t < s.len() implies drawn_from(orig, n - 1, #[trigger] s[t], listed) by {
                        if t < before.len() {
                            assert(s[t] == before[t]);
                            assert(drawn_from(orig, n, before[t], listed));
                        } else {
                            assert(orig[n - 1] == s[t]);
                        }
                    }
                    assert forall|u: int|
                        n - 1 <= u < orig.len() && listed.contains((#[trigger] orig[u]).0@)
                            implies has_entry(s, orig[u]) by {
                        if u == n - 1 {
                            assert(s[before.len() as int] == orig[u]);
                        } else {
                            assert(has_entry(before, orig[u]));
                            let t = choose|t: int| 0 <= t < before.len() && before[t] == orig[u];
                            assert(s[t] == before[t]);
                        }
                    }
                }
            } else {
                proof {
                    assert forall|t: int| 0 <= t < before.len() implies drawn_from(orig, n - 1, #[trigger] before[t], listed) by {
                        assert(drawn_from(orig, n, before[t], listed));
                    }
                }
            }
        }
        proof {
            let s = kept@;
            lemma_entries_view(s);
            lemma_entries_view(orig);
            let expected = entries_view(orig).restrict(listed);
            assert forall|key: K::V| #[trigger] entries_view(s).contains_key(key)
                == expected.contains_key(key) by {
                if has_key(s, key) {
                    let t = choose|t: int| 0 <= t < s.len() && (#[trigger] s[t]).0@ == key;
                    assert(drawn_from(orig, 0, s[t], listed));
                    let u = choose|u: int| 0 <= u < orig.len() && orig[u] == s[t];
                    assert(orig[u].0@ == key);
                    assert(has_key(orig, key));
                }
                if expected.contains_key(key) {
                    let u = choose|u: int| 0 <= u < orig.len() && (#[trigger] orig[u]).0@ == key;
                    assert(has_entry(s, orig[u]));
                    let t = choose|t: int| 0 <= t < s.len() && s[t] == orig[u];
                    assert(s[t].0@ == key);
                    assert(has_key(s, key));
                }
            }
            assert(entries_view(s) =~= expected) by {
                assert forall|key: K::V| #[trigger] entries_view(s).contains_key(key) implies entries_view(s)[key]
                    == expected[key] by {
                    let t = choose|t: int| 0 <= t < s.len() && (#[trigger] s[t]).0@ == key;
                    assert(drawn_from(orig, 0, s[t], listed));
                    let u = choose|u: int| 0 <= u < orig.len() && orig[u] == s[t];
                    assert(entries_view(orig)[orig[u].0@] == orig[u].1);
                    assert(entries_view(s)[s[t].0@] == s[t].1);
                }
            }
        }
        self.entries = kept;
    }

    /// Removes every entry.
    pub fn clear(&mut self)
        ensures
            final(self)@ == Map::<K::V, V>::empty(),
    {
        self.entries = Vec::new();
        assert(self@ =~= Map::<K::V, V>::empty());
    }
}

/// A map keyed by integer ids, held in a std `HashMap`.
pub struct IdMap<V> {
    map: HashMap<i64, V>,
}

impl<V> View for IdMap<V> {
    type V = Map<i64, V>;

    closed spec fn view(&self) -> Map<i64, V> {
        self.map@
    }
}

impl<V> IdMap<V> {
    pub fn new() -> (m: Self)
        ensures
            m@ == Map::<i64, V>::empty(),
    {
        IdMap { map: HashMap::new() }
    }

    pub fn contains_key(&self, k: &i64) -> (found: bool)
        ensures
            found == self@.contains_key(*k),
    {
        broadcast use vstd::std_specs::hash::group_hash_axioms;

        self.map.contains_key(k)
    }

    pub fn get(&self, k: &i64) -> (r: Option<&V>)
        ensures
            match r {
                Some(v) => self@.contains_key(*k) && *v == self@[*k],
                None => !self@.contains_key(*k),
            },
    {
        broadcast use vstd::std_specs::hash::group_hash_axioms;

        self.map.get(k)
    }

    /// Sets the value of `k`, replacing any previous one.
    pub fn insert(&mut self, k: i64, v: V)
        ensures
            final(self)@ == old(self)@.insert(k, v),
    {
        broadcast use vstd::std_specs::hash::group_hash_axioms;

        let _ = self.map.insert(k, v);
    }

    /// Removes `k` and hands back its value, if it had one.
    pub fn remove(&mut self, k: &i64) -> (r: Option<V>)
        ensures
            final(self)@ == old(self)@.remove(*k),
            match r {
                Some(v) => old(self)@.contains_key(*k) && v == old(self)@[*k],
                None => !old(self)@.contains_key(*k),
            },
    {
        broadcast use vstd::std_specs::hash::group_hash_axioms;

        self.map.remove(k)
    }

    pub fn clear(&mut self)
        ensures
            final(self)@ == Map::<i64, V>::empty(),
    {
        self.map.clear();
    }

    /// Number of entries.
    pub fn len(&self) -> (n: usize)
        ensures
            n == self@.len(),
    {
        broadcast use vstd::std_specs::hash::group_hash_axioms;

        self.map.len()
    }

    /// Keeps only the entries whose key is listed in `keep`.
    pub fn retain_listed(&mut self, keep: &Vec<i64>)
        ensures
            final(self)@ == old(self)@.restrict(key_set(keep@)),
    {
        let ks = self.keys();
        let ghost orig = self@;
        let ghost listed = key_set(keep@);
        let mut i: usize = 0;
        while i < ks.len()
            invariant
                i <= ks@.len(),
                key_set(ks@) == orig.dom(),
                ks@.no_duplicates(),
                listed == key_set(keep@),
                forall|k: i64| #[trigger] self@.contains_key(k) <==> (orig.contains_key(k) && (
                    listed.contains(k) || !ks@.take(i as int).contains(k))),
                forall|k: i64| #[trigger] self@.contains_key(k) ==> self@[k] == orig[k],
            decreases ks@.len() - i,
        {
            let k = ks[i];
            let ghost prev = self@;
            let listed_k = is_listed(keep, &k);
            if !listed_k {
                let _ = self.remove(&k);
            }
            assert(ks@.take(i + 1) =~= ks@.take(i as int).push(k));
            assert forall|x: i64| #[trigger] self@.contains_key(x) <==> (orig.contains_key(x) && (
                listed.contains(x) || !ks@.take(i + 1).contains(x))) by {
                assert(ks@.take(i + 1).contains(x) <==> (ks@.take(i as int).contains(x) || x == k)) by {
                    if ks@.take(i + 1).contains(x) {
                        let t = choose|t: int| 0 <= t < i + 1 && #[trigger] ks@.take(i + 1)[t] == x;
                        if t < i {
                            assert(ks@.take(i as int)[t] == x);
                        }
                    }
                    if ks@.take(i as int).contains(x) {
                        let t = choose|t: int| 0 <= t < i && #[trigger] ks@.take(i as int)[t] == x;
                        assert(ks@.take(i + 1)[t] == x);
                    }
                    if x == k {
                        assert(ks@.take(i + 1)[i as int] == x);
                    }
                }
                if x == k {
                    assert(orig.contains_key(k)) by {
                        assert(key_set(ks@).contains(k));
                    }
                    assert(!ks@.take(i as int).contains(k)) by {
                        if ks@.take(i as int).contains(k) {
                            let t = choose|t: int| 0 <= t < i && #[trigger] ks@.take(i as int)[t] == k;
                            assert(ks@[t] == ks@[i as int]);
                        }
                    }
                    assert(prev.contains_key(k));
                }
            }
            i = i + 1;
        }
        proof {
            assert(ks@.take(ks@.len() as int) =~= ks@);
            assert forall|x: i64| orig.contains_key(x) implies ks@.contains(x) by {
                assert(key_set(ks@).contains(x));
                let t = choose|t: int| 0 <= t < ks@.len() && (#[trigger] ks@[t])@ == x;
            }
            assert(self@ =~= orig.restrict(listed));
        }
    }

    /// The keys, each once, in no particular order.
    pub fn keys(&self) -> (ks: Vec<i64>)
        ensures
            key_set(ks@) == self@.dom(),
            ks@.no_duplicates(),
    {
        broadcast use vstd::std_specs::hash::group_hash_axioms;

        let mut ks: Vec<i64> = Vec::new();
        let ghost all: Seq<i64> = spec_keys_iter(&self.map).remaining().unref();
        for k in it: self.map.keys()
            invariant
                it.seq().unref() == all,
                ks@ == all.take(it.index() as int),
        {
            ks.push(*k);
            assert(ks@ =~= all.take(it.index() + 1));
        }
        assert(ks@ =~= all);
        assert(key_set(ks@) =~= self@.dom()) by {
            assert(all.to_set() == self@.dom());
            assert forall|x: i64| key_set(ks@).contains(x) implies self@.dom().contains(x) by {
                let t = choose|t: int| 0 <= t < ks@.len() && (#[trigger] ks@[t])@ == x;
                assert(all.to_set().contains(all[t]));
            }
            assert forall|x: i64| self@.dom().contains(x) implies key_set(ks@).contains(x) by {
                assert(all.to_set().contains(x));
                let t = choose|t: int| 0 <= t < all.len() && all[t] == x;
                assert(ks@[t]@ == x);
            }
        }
        ks
    }
}

} // verus!
