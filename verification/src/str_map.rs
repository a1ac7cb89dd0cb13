use vstd::prelude::*;

verus! {

/// No key occurs twice among `s`.
pub open spec fn unique_keys<V>(s: Seq<(String, V)>) -> bool {
    forall|i: int, j: int|
        0 <= i < s.len() && 0 <= j < s.len() && i != j ==> #[trigger] s[i].0@ != #[trigger] s[j].0@
}

/// Some entry of `s` has the key `k`.
pub open spec fn has_key<V>(s: Seq<(String, V)>, k: Seq<char>) -> bool {
    exists|i: int| 0 <= i < s.len() && #[trigger] s[i].0@ == k
}

/// The position of the key `k` among `s`.
pub open spec fn key_index<V>(s: Seq<(String, V)>, k: Seq<char>) -> int {
    choose|i: int| 0 <= i < s.len() && #[trigger] s[i].0@ == k
}

/// The map that the entries `s` describe.
pub open spec fn entries_map<V: View>(s: Seq<(String, V)>) -> Map<Seq<char>, V::V> {
    Map::new(|k: Seq<char>| has_key(s, k), |k: Seq<char>| s[key_index(s, k)].1@)
}

proof fn lemma_key_index<V: View>(s: Seq<(String, V)>, i: int)
    requires
        unique_keys(s),
        0 <= i < s.len(),
    ensures
        has_key(s, s[i].0@),
        key_index(s, s[i].0@) == i,
        entries_map(s).contains_key(s[i].0@),
        entries_map(s)[s[i].0@] == s[i].1@,
{
    let k = s[i].0@;
    assert(s[i].0@ == k);
    let j = key_index(s, k);
    if j != i {
        assert(s[j].0@ != s[i].0@);
    }
}

/// A map keyed by strings that keeps its entries in insertion order.
///
/// Every key occurs at most once; the abstract view is a `Map` from the key's characters to
/// the view of the value.
#[derive(Debug)]
pub struct StrMap<V> {
    entries: Vec<(String, V)>,
}

impl<V: View> StrMap<V> {
    /// The stored entries, in insertion order.
    pub closed spec fn pairs(&self) -> Seq<(String, V)> {
        self.entries@
    }

    /// The keys, in insertion order.
    pub open spec fn key_seq(&self) -> Seq<Seq<char>> {
        self.pairs().map_values(|e: (String, V)| e.0@)
    }

    /// No key occurs twice.
    pub open spec fn wf(&self) -> bool {
        unique_keys(self.pairs())
    }

    pub open spec fn view(&self) -> Map<Seq<char>, V::V> {
        entries_map(self.pairs())
    }

    /// Every key of the map occurs in `key_seq`, and every element of `key_seq` is a key.
    pub proof fn lemma_keys(&self)
        requires
            self.wf(),
        ensures
            forall|i: int| 0 <= i < self.key_seq().len() ==> #[trigger] self@.contains_key(self.key_seq()[i]),
            forall|k: Seq<char>| #[trigger] self@.contains_key(k) ==> self.key_seq().contains(k),
            forall|i: int, j: int|
                0 <= i < self.key_seq().len() && 0 <= j < self.key_seq().len() && i != j
                    ==> #[trigger] self.key_seq()[i] != #[trigger] self.key_seq()[j],
    {
        let s = self.pairs();
        assert forall|i: int| 0 <= i < self.key_seq().len() implies #[trigger] self@.contains_key(self.key_seq()[i]) by {
            lemma_key_index(s, i);
        }
        assert forall|k: Seq<char>| #[trigger] self@.contains_key(k) implies self.key_seq().contains(k) by {
            let i = choose|i: int| 0 <= i < s.len() && #[trigger] s[i].0@ == k;
            assert(self.key_seq()[i] == k);
        }
    }

    /// An empty map.
    pub fn new() -> (m: Self)
        ensures
            m.wf(),
            m@ == Map::<Seq<char>, V::V>::empty(),
            m.key_seq() == Seq::<Seq<char>>::empty(),
    {
        let m = StrMap { entries: Vec::new() };
        assert(m@ =~= Map::<Seq<char>, V::V>::empty());
        assert(m.key_seq() =~= Seq::<Seq<char>>::empty());
        m
    }

    /// The number of entries.
    pub fn len(&self) -> (n: usize)
        ensures
            n == self.key_seq().len(),
    {
        self.entries.len()
    }

    /// The position of `k`, if it is a key.
    fn find(&self, k: &String) -> (r: Option<usize>)
        requires
            self.wf(),
        ensures
            match r {
                Some(i) => i < self.pairs().len() && self.pairs()[i as int].0@ == k@,
                None => !self@.contains_key(k@),
            },
    {
        let mut i: usize = 0;
        while i < self.entries.len()
            invariant
                i <= self.entries.len(),
                forall|j: int| 0 <= j < i ==> self.entries@[j].0@ != k@,
            decreases self.entries.len() - i,
        {
            if self.entries[i].0 == *k {
                return Some(i);
            }
            i += 1;
        }
        None
    }

    /// Whether `k` is a key of the map.
    pub fn contains_key(&self, k: &String) -> (b: bool)
        requires
            self.wf(),
        ensures
            b == self@.contains_key(k@),
    {
        match self.find(k) {
            Some(i) => {
                proof {
                    lemma_key_index(self.pairs(), i as int);
                }
                true
            },
            None => false,
        }
    }

    /// The value stored under `k`.
    pub fn get(&self, k: &String) -> (r: Option<&V>)
        requires
            self.wf(),
        ensures
            match r {
                Some(v) => self@.contains_key(k@) && v@ == self@[k@],
                None => !self@.contains_key(k@),
            },
    {
        match self.find(k) {
            Some(i) => {
                proof {
                    lemma_key_index(self.pairs(), i as int);
                }
                Some(&self.entries[i].1)
            },
            None => None,
        }
    }

    /// The key at position `i`.
    pub fn key_at(&self, i: usize) -> (k: &String)
        requires
            i < self.key_seq().len(),
        ensures
            k@ == self.key_seq()[i as int],
    {
        &self.entries[i].0
    }

    /// The value at position `i`.
    pub fn value_at(&self, i: usize) -> (v: &V)
        requires
            self.wf(),
            i < self.key_seq().len(),
        ensures
            self@.contains_key(self.key_seq()[i as int]),
            v@ == self@[self.key_seq()[i as int]],
    {
        proof {
            lemma_key_index(self.pairs(), i as int);
        }
        &self.entries[i].1
    }

    /// Stores `v` under `k`, replacing any value stored there before. A new key goes last.
    pub fn insert(&mut self, k: String, v: V)
        requires
            old(self).wf(),
        ensures
            final(self).wf(),
            final(self)@ == old(self)@.insert(k@, v@),
            old(self)@.contains_key(k@) ==> final(self).key_seq() == old(self).key_seq(),
            !old(self)@.contains_key(k@) ==> final(self).key_seq() == old(self).key_seq().push(k@),
    {
        let ghost old_pairs = self.pairs();
        let ghost old_map = self@;
        let ghost kv = k@;
        let ghost vv = v@;
        match self.find(&k) {
            Some(i) => {
                self.entries.set(i, (k, v));
                proof {
                    let s = self.pairs();
                    assert(s =~= old_pairs.update(i as int, s[i as int]));
                    assert forall|a: int, b: int|
                        0 <= a < s.len() && 0 <= b < s.len() && a != b implies #[trigger] s[a].0@
                        != #[trigger] s[b].0@ by {
                        assert(old_pairs[a].0@ != old_pairs[b].0@);
                    }
                    assert forall|key: Seq<char>|
                        #[trigger] self@.contains_key(key) == old_map.insert(kv, vv).contains_key(key)
                        by {
                        if has_key(s, key) {
                            let j = choose|j: int| 0 <= j < s.len() && #[trigger] s[j].0@ == key;
                            assert(old_pairs[j].0@ == key);
                        }
                        if has_key(old_pairs, key) {
                            let j = choose|j: int| 0 <= j < old_pairs.len() && #[trigger] old_pairs[j].0@ == key;
                            assert(s[j].0@ == key);
                        }
                        if key == kv {
                            assert(s[i as int].0@ == key);
                        }
                    }
                    assert forall|key: Seq<char>| #[trigger]
                        self@.contains_key(key) implies self@[key] == old_map.insert(kv, vv)[key] by {
                        let j = choose|j: int| 0 <= j < s.len() && #[trigger] s[j].0@ == key;
                        lemma_key_index(s, j);
                        if j != i {
                            lemma_key_index(old_pairs, j);
                        }
                    }
                    assert(self@ =~= old_map.insert(kv, vv));
                    assert(self.key_seq() =~= old_pairs.map_values(|e: (String, V)| e.0@));
                }
            },
            None => {
                self.entries.push((k, v));
                proof {
                    let s = self.pairs();
                    assert(s =~= old_pairs.push(s.last()));
                    assert forall|a: int, b: int|
                        0 <= a < s.len() && 0 <= b < s.len() && a != b implies #[trigger] s[a].0@
                        != #[trigger] s[b].0@ by {
                        if a < old_pairs.len() && b < old_pairs.len() {
                            assert(old_pairs[a].0@ != old_pairs[b].0@);
                        } else if a < old_pairs.len() {
                            assert(old_pairs[a].0@ == s[a].0@);
                        } else {
                            assert(old_pairs[b].0@ == s[b].0@);
                        }
                    }
                    assert forall|key: Seq<char>|
                        #[trigger] self@.contains_key(key) == old_map.insert(kv, vv).contains_key(key)
                        by {
                        if has_key(s, key) {
                            let j = choose|j: int| 0 <= j < s.len() && #[trigger] s[j].0@ == key;
                            if j < old_pairs.len() {
                                assert(old_pairs[j].0@ == key);
                            }
                        }
                        if has_key(old_pairs, key) {
                            let j = choose|j: int| 0 <= j < old_pairs.len() && #[trigger] old_pairs[j].0@ == key;
                            assert(s[j].0@ == key);
                        }
                        if key == kv {
                            assert(s[old_pairs.len() as int].0@ == key);
                        }
                    }
                    assert forall|key: Seq<char>| #[trigger]
                        self@.contains_key(key) implies self@[key] == old_map.insert(kv, vv)[key] by {
                        let j = choose|j: int| 0 <= j < s.len() && #[trigger] s[j].0@ == key;
                        lemma_key_index(s, j);
                        if j < old_pairs.len() {
                            lemma_key_index(old_pairs, j);
                        }
                    }
                    assert(self@ =~= old_map.insert(kv, vv));
                    assert(self.key_seq() =~= old_pairs.map_values(|e: (String, V)| e.0@).push(kv));
                }
            },
        }
    }

    /// Takes the value stored under `k` out of the map; the other entries keep their order.
    pub fn remove(&mut self, k: &String) -> (r: Option<V>)
        requires
            old(self).wf(),
        ensures
            final(self).wf(),
            final(self)@ == old(self)@.remove(k@),
            match r {
                Some(v) => old(self)@.contains_key(k@) && v@ == old(self)@[k@],
                None => !old(self)@.contains_key(k@) && final(self).key_seq() == old(self).key_seq()
                    && final(self)@ == old(self)@,
            },
    {
        let ghost old_pairs = self.pairs();
        let ghost old_map = self@;
        let ghost kv = k@;
        match self.find(k) {
            Some(i) => {
                let e = self.entries.remove(i);
                proof {
                    let s = self.pairs();
                    lemma_key_index(old_pairs, i as int);
                    assert(s =~= old_pairs.remove(i as int));
                    assert forall|a: int| 0 <= a < s.len() implies #[trigger] s[a] == old_pairs[if a < i { a } else { a + 1 }] by {}
                    assert forall|a: int, b: int|
                        0 <= a < s.len() && 0 <= b < s.len() && a != b implies #[trigger] s[a].0@
                        != #[trigger] s[b].0@ by {
                        let a2 = if a < i { a } else { a + 1 };
                        let b2 = if b < i { b } else { b + 1 };
                        assert(s[a] == old_pairs[a2]);
                        assert(s[b] == old_pairs[b2]);
                        assert(old_pairs[a2].0@ != old_pairs[b2].0@);
                    }
                    assert forall|key: Seq<char>|
                        #[trigger] self@.contains_key(key) == old_map.remove(kv).contains_key(key)
                        by {
                        if has_key(s, key) {
                            let j = choose|j: int| 0 <= j < s.len() && #[trigger] s[j].0@ == key;
                            let j2 = if j < i { j } else { j + 1 };
                            assert(s[j] == old_pairs[j2]);
                            assert(old_pairs[j2].0@ == key);
                            assert(old_pairs[i as int].0@ != old_pairs[j2].0@);
                        }
                        if has_key(old_pairs, key) && key != kv {
                            let j = choose|j: int| 0 <= j < old_pairs.len() && #[trigger] old_pairs[j].0@ == key;
                            let j2 = if j < i { j } else { j - 1 };
                            assert(j != i);
                            assert(s[j2] == old_pairs[j]);
                            assert(s[j2].0@ == key);
                        }
                    }
                    assert forall|key: Seq<char>| #[trigger]
                        self@.contains_key(key) implies self@[key] == old_map.remove(kv)[key] by {
                        let j = choose|j: int| 0 <= j < s.len() && #[trigger] s[j].0@ == key;
                        let j2 = if j < i { j } else { j + 1 };
                        assert(s[j] == old_pairs[j2]);
                        lemma_key_index(s, j);
                        lemma_key_index(old_pairs, j2);
                    }
                    assert(self@ =~= old_map.remove(kv));
                }
                Some(e.1)
            },
            None => {
                proof {
                    assert(old_map.remove(kv) =~= old_map);
                }
                None
            },
        }
    }

    /// The keys, in insertion order.
    pub fn keys(&self) -> (ks: Vec<String>)
        ensures
            ks@.map_values(|s: String| s@) == self.key_seq(),
    {
        let mut ks: Vec<String> = Vec::new();
        let mut i: usize = 0;
        while i < self.entries.len()
            invariant
                i <= self.entries.len(),
                ks@.map_values(|s: String| s@) =~= self.key_seq().take(i as int),
            decreases self.entries.len() - i,
        {
            let k = self.entries[i].0.clone();
            let ghost before = ks@;
            ks.push(k);
            proof {
                assert(ks@ == before.push(k));
                assert(k@ == self.key_seq()[i as int]);
                assert(ks@.map_values(|s: String| s@) =~= before.map_values(|s: String| s@).push(k@));
                assert(self.key_seq().take(i + 1) =~= self.key_seq().take(i as int).push(k@));
            }
            i += 1;
        }
        proof {
            assert(self.key_seq().take(i as int) =~= self.key_seq());
        }
        ks
    }
}

} // verus!
