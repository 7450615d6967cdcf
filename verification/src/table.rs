//! A map from claims (byte strings) to values, kept as a vector of
//! entries whose keys are pairwise distinct.

use vstd::prelude::*;

verus! {

/// The claim stored at an entry.
pub open spec fn key_of<V>(e: (Vec<u8>, V)) -> Seq<u8> {
    e.0@
}

/// No two entries hold the same claim.
pub open spec fn distinct_keys<V>(s: Seq<(Vec<u8>, V)>) -> bool {
    forall|i: int, j: int|
        0 <= i < s.len() && 0 <= j < s.len() && i != j ==> key_of(#[trigger] s[i]) != key_of(
            #[trigger] s[j],
        )
}

/// Some entry holds the claim `k`.
pub open spec fn has_key<V>(s: Seq<(Vec<u8>, V)>, k: Seq<u8>) -> bool {
    exists|i: int| 0 <= i < s.len() && key_of(#[trigger] s[i]) == k
}

/// The map that a sequence of entries stands for.
pub open spec fn map_of<V>(s: Seq<(Vec<u8>, V)>) -> Map<Seq<u8>, V> {
    Map::new(
        |k: Seq<u8>| has_key(s, k),
        |k: Seq<u8>| s[choose|i: int| 0 <= i < s.len() && key_of(#[trigger] s[i]) == k].1,
    )
}

/// With distinct keys, the map holds each entry's value under its claim.
pub proof fn lemma_map_of_at<V>(s: Seq<(Vec<u8>, V)>, i: int)
    requires
        distinct_keys(s),
        0 <= i < s.len(),
    ensures
        map_of(s).contains_key(key_of(s[i])),
        map_of(s)[key_of(s[i])] == s[i].1,
{
    let k = key_of(s[i]);
    assert(has_key(s, k));
    let j = choose|j: int| 0 <= j < s.len() && key_of(#[trigger] s[j]) == k;
    assert(j == i);
}

/// Appending an entry for a new claim inserts it into the map.
pub proof fn lemma_map_of_push<V>(s: Seq<(Vec<u8>, V)>, e: (Vec<u8>, V))
    requires
        distinct_keys(s),
        !has_key(s, key_of(e)),
    ensures
        distinct_keys(s.push(e)),
        map_of(s.push(e)) == map_of(s).insert(key_of(e), e.1),
{
    let t = s.push(e);
    assert forall|i: int, j: int|
        0 <= i < t.len() && 0 <= j < t.len() && i != j implies key_of(#[trigger] t[i]) != key_of(
        #[trigger] t[j],
    ) by {
        if i == s.len() {
            assert(t[j] == s[j]);
        } else if j == s.len() {
            assert(t[i] == s[i]);
        } else {
            assert(t[i] == s[i] && t[j] == s[j]);
        }
    }
    let m = map_of(s).insert(key_of(e), e.1);
    assert forall|k: Seq<u8>| #[trigger] map_of(t).contains_key(k) <==> m.contains_key(k) by {
        if has_key(t, k) {
            let i = choose|i: int| 0 <= i < t.len() && key_of(#[trigger] t[i]) == k;
            if i < s.len() {
                assert(t[i] == s[i]);
                assert(has_key(s, k));
            }
        }
        if has_key(s, k) {
            let i = choose|i: int| 0 <= i < s.len() && key_of(#[trigger] s[i]) == k;
            assert(t[i] == s[i]);
            assert(has_key(t, k));
        }
        if k == key_of(e) {
            assert(t[s.len() as int] == e);
            assert(has_key(t, k));
        }
    }
    assert forall|k: Seq<u8>| #[trigger] map_of(t).contains_key(k) implies map_of(t)[k] == m[k] by {
        let i = choose|i: int| 0 <= i < t.len() && key_of(#[trigger] t[i]) == k;
        lemma_map_of_at(t, i);
        if i < s.len() {
            assert(t[i] == s[i]);
            lemma_map_of_at(s, i);
        }
    }
    assert(map_of(t) =~= m);
}

/// Replacing the value at an entry updates the map under that claim.
pub proof fn lemma_map_of_update<V>(s: Seq<(Vec<u8>, V)>, i: int, e: (Vec<u8>, V))
    requires
        distinct_keys(s),
        0 <= i < s.len(),
        key_of(e) == key_of(s[i]),
    ensures
        distinct_keys(s.update(i, e)),
        map_of(s.update(i, e)) == map_of(s).insert(key_of(e), e.1),
{
    let t = s.update(i, e);
    assert forall|a: int, b: int|
        0 <= a < t.len() && 0 <= b < t.len() && a != b implies key_of(#[trigger] t[a]) != key_of(
        #[trigger] t[b],
    ) by {
        assert(key_of(t[a]) == key_of(s[a]));
        assert(key_of(t[b]) == key_of(s[b]));
    }
    let m = map_of(s).insert(key_of(e), e.1);
    lemma_map_of_at(s, i);
    assert forall|k: Seq<u8>| #[trigger] map_of(t).contains_key(k) <==> m.contains_key(k) by {
        if has_key(t, k) {
            let a = choose|a: int| 0 <= a < t.len() && key_of(#[trigger] t[a]) == k;
            assert(key_of(t[a]) == key_of(s[a]));
            assert(has_key(s, k));
        }
        if has_key(s, k) {
            let a = choose|a: int| 0 <= a < s.len() && key_of(#[trigger] s[a]) == k;
            assert(key_of(t[a]) == key_of(s[a]));
            assert(has_key(t, k));
        }
    }
    assert forall|k: Seq<u8>| #[trigger] map_of(t).contains_key(k) implies map_of(t)[k] == m[k] by {
        let a = choose|a: int| 0 <= a < t.len() && key_of(#[trigger] t[a]) == k;
        lemma_map_of_at(t, a);
        if a != i {
            assert(t[a] == s[a]);
            lemma_map_of_at(s, a);
        }
    }
    assert(map_of(t) =~= m);
}

/// Removing an entry removes its claim from the map.
pub proof fn lemma_map_of_remove<V>(s: Seq<(Vec<u8>, V)>, i: int)
    requires
        distinct_keys(s),
        0 <= i < s.len(),
    ensures
        distinct_keys(s.remove(i)),
        map_of(s.remove(i)) == map_of(s).remove(key_of(s[i])),
{
    let t = s.remove(i);
    assert forall|a: int| 0 <= a < t.len() implies #[trigger] t[a] == s[if a < i {
        a
    } else {
        a + 1
    }] by {}
    assert forall|a: int, b: int|
        0 <= a < t.len() && 0 <= b < t.len() && a != b implies key_of(#[trigger] t[a]) != key_of(
        #[trigger] t[b],
    ) by {
        let a2: int = if a < i { a } else { a + 1 };
        let b2: int = if b < i { b } else { b + 1 };
        assert(t[a] == s[a2] && t[b] == s[b2]);
    }
    let gone = key_of(s[i]);
    let m = map_of(s).remove(gone);
    assert forall|k: Seq<u8>| #[trigger] map_of(t).contains_key(k) <==> m.contains_key(k) by {
        if has_key(t, k) {
            let a = choose|a: int| 0 <= a < t.len() && key_of(#[trigger] t[a]) == k;
            let a2: int = if a < i { a } else { a + 1 };
            assert(t[a] == s[a2]);
            assert(has_key(s, k));
            assert(a2 != i);
        }
        if has_key(s, k) && k != gone {
            let a = choose|a: int| 0 <= a < s.len() && key_of(#[trigger] s[a]) == k;
            assert(a != i);
            let a2: int = if a < i { a } else { a - 1 };
            assert(t[a2] == s[a]);
            assert(has_key(t, k));
        }
    }
    assert forall|k: Seq<u8>| #[trigger] map_of(t).contains_key(k) implies map_of(t)[k] == m[k] by {
        let a = choose|a: int| 0 <= a < t.len() && key_of(#[trigger] t[a]) == k;
        let a2: int = if a < i { a } else { a + 1 };
        assert(t[a] == s[a2]);
        lemma_map_of_at(t, a);
        lemma_map_of_at(s, a2);
    }
    assert(map_of(t) =~= m);
}

/// Whether two byte strings hold the same bytes.
pub fn bytes_equal(a: &Vec<u8>, b: &Vec<u8>) -> (r: bool)
    ensures
        r == (a@ == b@),
{
    if a.len() != b.len() {
        return false;
    }
    let mut i: usize = 0;
    while i < a.len()
        invariant
            a.len() == b.len(),
            i <= a.len(),
            forall|j: int| 0 <= j < i ==> a@[j] == b@[j],
        decreases a.len() - i,
    {
        if a[i] != b[i] {
            return false;
        }
        i = i + 1;
    }
    assert(a@ =~= b@);
    true
}

/// A map from claims to values.
pub struct ClaimTable<V> {
    entries: Vec<(Vec<u8>, V)>,
}

impl<V> View for ClaimTable<V> {
    type V = Map<Seq<u8>, V>;

    closed spec fn view(&self) -> Map<Seq<u8>, V> {
        map_of(self.entries@)
    }
}

impl<V> ClaimTable<V> {
    #[verifier::type_invariant]
    closed spec fn wf(&self) -> bool {
        distinct_keys(self.entries@)
    }
}

impl<V: Copy> ClaimTable<V> {
    /// The empty table.
    pub fn new() -> (t: Self)
        ensures
            t@ == Map::<Seq<u8>, V>::empty(),
    {
        let t = ClaimTable { entries: Vec::new() };
        assert(map_of(t.entries@) =~= Map::<Seq<u8>, V>::empty());
        t
    }

    /// The index of the entry that holds `claim`, if any.
    fn find(&self, claim: &Vec<u8>) -> (r: Option<usize>)
        ensures
            match r {
                Some(i) => i < self.entries@.len() && key_of(self.entries@[i as int]) == claim@,
                None => !self@.contains_key(claim@),
            },
    {
        let mut i: usize = 0;
        while i < self.entries.len()
            invariant
                i <= self.entries@.len(),
                forall|j: int| 0 <= j < i ==> key_of(#[trigger] self.entries@[j]) != claim@,
            decreases self.entries@.len() - i,
        {
            if bytes_equal(&self.entries[i].0, claim) {
                return Some(i);
            }
            i = i + 1;
        }
        None
    }

    /// Whether the table holds `claim`.
    pub fn contains_key(&self, claim: &Vec<u8>) -> (r: bool)
        ensures
            r == self@.contains_key(claim@),
    {
        proof {
            use_type_invariant(self);
        }
        match self.find(claim) {
            Some(i) => {
                proof {
                    lemma_map_of_at(self.entries@, i as int);
                }
                true
            },
            None => false,
        }
    }

    /// The value held under `claim`, if any.
    pub fn get(&self, claim: &Vec<u8>) -> (r: Option<V>)
        ensures
            r == (if self@.contains_key(claim@) {
                Some(self@[claim@])
            } else {
                None
            }),
    {
        proof {
            use_type_invariant(self);
        }
        match self.find(claim) {
            Some(i) => {
                proof {
                    lemma_map_of_at(self.entries@, i as int);
                }
                Some(self.entries[i].1)
            },
            None => None,
        }
    }

    /// Sets the value held under `claim`.
    pub fn insert(&mut self, claim: Vec<u8>, value: V)
        ensures
            final(self)@ == old(self)@.insert(claim@, value),
    {
        proof {
            use_type_invariant(&*self);
        }
        let found = self.find(&claim);
        let mut entries: Vec<(Vec<u8>, V)> = Vec::new();
        std::mem::swap(&mut entries, &mut self.entries);
        match found {
            Some(i) => {
                proof {
                    lemma_map_of_update(entries@, i as int, (claim, value));
                }
                entries.set(i, (claim, value));
            },
            None => {
                proof {
                    if has_key(entries@, claim@) {
                        let j = choose|j: int|
                            0 <= j < entries@.len() && key_of(#[trigger] entries@[j]) == claim@;
                        lemma_map_of_at(entries@, j);
                    }
                    lemma_map_of_push(entries@, (claim, value));
                }
                entries.push((claim, value));
            },
        }
        self.entries = entries;
    }

    /// Drops the entry that holds `claim`, if any.
    pub fn remove(&mut self, claim: &Vec<u8>)
        ensures
            final(self)@ == old(self)@.remove(claim@),
    {
        proof {
            use_type_invariant(&*self);
        }
        match self.find(claim) {
            Some(i) => {
                proof {
                    lemma_map_of_remove(self.entries@, i as int);
                }
                let mut entries: Vec<(Vec<u8>, V)> = Vec::new();
                std::mem::swap(&mut entries, &mut self.entries);
                entries.remove(i);
                self.entries = entries;
            },
            None => {
                assert(self@.remove(claim@) =~= self@);
            },
        }
    }
}

} // verus!
