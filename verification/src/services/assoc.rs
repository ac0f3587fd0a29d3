use vstd::prelude::*;

verus! {

/// Whether some entry of `s` carries the key `k`.
pub open spec fn has_key<V: View>(s: Seq<(String, V)>, k: Seq<char>) -> bool {
    exists|i: int| 0 <= i < s.len() && (#[trigger] s[i]).0@ == k
}

/// The index of the entry carrying `k`; meaningful under `has_key` and
/// `keys_distinct`.
pub open spec fn idx_of<V: View>(s: Seq<(String, V)>, k: Seq<char>) -> int {
    choose|i: int| 0 <= i < s.len() && (#[trigger] s[i]).0@ == k
}

/// No two entries carry the same key.
pub open spec fn keys_distinct<V: View>(s: Seq<(String, V)>) -> bool {
    forall|i: int, j: int|
        0 <= i < j < s.len() ==> (#[trigger] s[i]).0@ != (#[trigger] s[j]).0@
}

/// The mapping the entries spell out.
pub open spec fn map_of<V: View>(s: Seq<(String, V)>) -> Map<Seq<char>, V::V> {
    Map::new(|k: Seq<char>| has_key(s, k), |k: Seq<char>| s[idx_of(s, k)].1@)
}

/// If entry `i` carries `k`, it is the one `map_of` reads.
proof fn lemma_at_key<V: View>(s: Seq<(String, V)>, k: Seq<char>, i: int)
    requires
        keys_distinct(s),
        0 <= i < s.len(),
        s[i].0@ == k,
    ensures
        has_key(s, k),
        map_of(s).contains_key(k),
        map_of(s)[k] == s[i].1@,
        idx_of(s, k) == i,
{
    assert(has_key(s, k));
    let j = idx_of(s, k);
    assert(0 <= j < s.len() && s[j].0@ == k);
    if j < i {
        assert(s[j].0@ != s[i].0@);
        assert(false);
    } else if i < j {
        assert(s[i].0@ != s[j].0@);
        assert(false);
    }
}

/// Appending an entry with a fresh key inserts it into the mapping.
proof fn lemma_map_of_push<V: View>(s: Seq<(String, V)>, p: (String, V))
    requires
        keys_distinct(s),
        !has_key(s, p.0@),
    ensures
        keys_distinct(s.push(p)),
        map_of(s.push(p)) == map_of(s).insert(p.0@, p.1@),
{
    let s2 = s.push(p);
    let n = s.len() as int;
    assert forall|i: int, j: int| 0 <= i < j < s2.len() implies (#[trigger] s2[i]).0@ != (
    #[trigger] s2[j]).0@ by {
        if j < n {
            assert(s2[i] == s[i] && s2[j] == s[j]);
        } else {
            assert(s2[j] == p);
            assert(s2[i] == s[i]);
            if s[i].0@ == p.0@ {
                assert(has_key(s, p.0@));
            }
        }
    }
    assert forall|k: Seq<char>| #[trigger] has_key(s2, k) implies has_key(s, k) || k == p.0@ by {
        let i = choose|i: int| 0 <= i < s2.len() && (#[trigger] s2[i]).0@ == k;
        if i < n {
            assert(s2[i] == s[i]);
            assert(has_key(s, k));
        } else {
            assert(s2[i] == p);
        }
    }
    assert forall|k: Seq<char>| #[trigger] has_key(s, k) implies has_key(s2, k) by {
        let i = choose|i: int| 0 <= i < s.len() && (#[trigger] s[i]).0@ == k;
        assert(s2[i] == s[i]);
        assert(has_key(s2, k));
    }
    assert(s2[n] == p);
    lemma_at_key(s2, p.0@, n);
    assert forall|k: Seq<char>| #[trigger] has_key(s, k) implies map_of(s2)[k] == map_of(s)[k] by {
        let i = choose|i: int| 0 <= i < s.len() && (#[trigger] s[i]).0@ == k;
        assert(s2[i] == s[i]);
        lemma_at_key(s, k, i);
        lemma_at_key(s2, k, i);
    }
    assert(map_of(s2) =~= map_of(s).insert(p.0@, p.1@));
}

/// Replacing the entry that carries `k` updates the mapping at `k`.
proof fn lemma_map_of_update<V: View>(s: Seq<(String, V)>, i: int, p: (String, V))
    requires
        keys_distinct(s),
        0 <= i < s.len(),
        s[i].0@ == p.0@,
    ensures
        keys_distinct(s.update(i, p)),
        map_of(s.update(i, p)) == map_of(s).insert(p.0@, p.1@),
{
    let s2 = s.update(i, p);
    assert forall|a: int, b: int| 0 <= a < b < s2.len() implies (#[trigger] s2[a]).0@ != (
    #[trigger] s2[b]).0@ by {
        assert(s[a].0@ != s[b].0@);
        assert(s2[a].0@ == s[a].0@ && s2[b].0@ == s[b].0@);
    }
    assert forall|k: Seq<char>| #[trigger] has_key(s2, k) implies has_key(s, k) by {
        let a = choose|a: int| 0 <= a < s2.len() && (#[trigger] s2[a]).0@ == k;
        assert(s2[a].0@ == s[a].0@);
        assert(has_key(s, k));
    }
    assert forall|k: Seq<char>| #[trigger] has_key(s, k) implies has_key(s2, k) by {
        let a = choose|a: int| 0 <= a < s.len() && (#[trigger] s[a]).0@ == k;
        assert(s2[a].0@ == s[a].0@);
        assert(has_key(s2, k));
    }
    lemma_at_key(s2, p.0@, i);
    assert forall|k: Seq<char>| has_key(s, k) && k != p.0@ implies map_of(s2)[k] == map_of(s)[k] by {
        let a = choose|a: int| 0 <= a < s.len() && (#[trigger] s[a]).0@ == k;
        lemma_at_key(s, k, a);
        assert(s2[a] == s[a]);
        lemma_at_key(s2, k, a);
    }
    assert(map_of(s2) =~= map_of(s).insert(p.0@, p.1@));
}

/// Removing the entry that carries `k` removes `k` from the mapping.
proof fn lemma_map_of_remove<V: View>(s: Seq<(String, V)>, i: int)
    requires
        keys_distinct(s),
        0 <= i < s.len(),
    ensures
        keys_distinct(s.remove(i)),
        map_of(s.remove(i)) == map_of(s).remove(s[i].0@),
{
    let s2 = s.remove(i);
    let k0 = s[i].0@;
    assert forall|a: int, b: int| 0 <= a < b < s2.len() implies (#[trigger] s2[a]).0@ != (
    #[trigger] s2[b]).0@ by {
        let a0 = if a < i { a } else { a + 1 };
        let b0 = if b < i { b } else { b + 1 };
        assert(s2[a] == s[a0] && s2[b] == s[b0]);
        assert(s[a0].0@ != s[b0].0@);
    }
    assert forall|k: Seq<char>| #[trigger] has_key(s2, k) implies has_key(s, k) && k != k0 by {
        let a = choose|a: int| 0 <= a < s2.len() && (#[trigger] s2[a]).0@ == k;
        let a0 = if a < i { a } else { a + 1 };
        assert(s2[a] == s[a0]);
        assert(has_key(s, k));
        if k == k0 {
            if a0 < i {
                assert(s[a0].0@ != s[i].0@);
            } else {
                assert(s[i].0@ != s[a0].0@);
            }
            assert(false);
        }
    }
    assert forall|k: Seq<char>| has_key(s, k) && k != k0 implies #[trigger] has_key(s2, k)
        && map_of(s2)[k] == map_of(s)[k] by {
        let a = choose|a: int| 0 <= a < s.len() && (#[trigger] s[a]).0@ == k;
        lemma_at_key(s, k, a);
        if a < i {
            assert(s2[a] == s[a]);
            lemma_at_key(s2, k, a);
        } else {
            assert(a != i);
            assert(s2[a - 1] == s[a]);
            lemma_at_key(s2, k, a - 1);
        }
    }
    assert(map_of(s2) =~= map_of(s).remove(k0));
}

/// A mapping from strings to values, kept as entries with pairwise
/// distinct keys.
pub struct StringMap<V: View> {
    entries: Vec<(String, V)>,
}

impl<V: View> View for StringMap<V> {
    type V = Map<Seq<char>, V::V>;

    closed spec fn view(&self) -> Map<Seq<char>, V::V> {
        map_of(self.entries@)
    }
}

impl<V: View> StringMap<V> {
    #[verifier::type_invariant]
    closed spec fn wf(self) -> bool {
        keys_distinct(self.entries@)
    }

    pub fn new() -> (r: StringMap<V>)
        ensures
            r@ == Map::<Seq<char>, V::V>::empty(),
    {
        let r = StringMap { entries: Vec::new() };
        proof {
            assert(r@ =~= Map::<Seq<char>, V::V>::empty());
        }
        r
    }

    fn index_of(&self, key: &String) -> (r: Option<usize>)
        ensures
            match r {
                Some(i) => i < self.entries@.len() && self.entries@[i as int].0@ == key@,
                None => !has_key(self.entries@, key@),
            },
    {
        let n = self.entries.len();
        let mut i: usize = 0;
        while i < n
            invariant
                n == self.entries@.len(),
                0 <= i <= n,
                forall|j: int| 0 <= j < i ==> (#[trigger] self.entries@[j]).0@ != key@,
            decreases n - i,
        {
            if self.entries[i].0 == *key {
                return Some(i);
            }
            i = i + 1;
        }
        None
    }

    pub fn contains_key(&self, key: &String) -> (r: bool)
        ensures
            r == self@.contains_key(key@),
    {
        proof {
            use_type_invariant(self);
        }
        match self.index_of(key) {
            Some(i) => {
                proof {
                    lemma_at_key(self.entries@, key@, i as int);
                }
                true
            },
            None => false,
        }
    }

    pub fn get(&self, key: &String) -> (r: Option<&V>)
        ensures
            match r {
                Some(v) => self@.contains_key(key@) && v@ == self@[key@],
                None => !self@.contains_key(key@),
            },
    {
        proof {
            use_type_invariant(self);
        }
        match self.index_of(key) {
            Some(i) => {
                proof {
                    lemma_at_key(self.entries@, key@, i as int);
                }
                Some(&self.entries[i].1)
            },
            None => None,
        }
    }

    pub fn insert(&mut self, key: String, value: V)
        ensures
            final(self)@ == old(self)@.insert(key@, value@),
    {
        proof {
            use_type_invariant(&*self);
        }
        let idx = self.index_of(&key);
        let mut entries: Vec<(String, V)> = Vec::new();
        core::mem::swap(&mut entries, &mut self.entries);
        match idx {
            Some(i) => {
                proof {
                    lemma_map_of_update(entries@, i as int, (key, value));
                }
                entries[i] = (key, value);
            },
            None => {
                proof {
                    lemma_map_of_push(entries@, (key, value));
                }
                entries.push((key, value));
            },
        }
        self.entries = entries;
    }

    pub fn remove(&mut self, key: &String) -> (r: bool)
        ensures
            final(self)@ == old(self)@.remove(key@),
            r == old(self)@.contains_key(key@),
    {
        proof {
            use_type_invariant(&*self);
        }
        let idx = self.index_of(key);
        match idx {
            Some(i) => {
                let mut entries: Vec<(String, V)> = Vec::new();
                core::mem::swap(&mut entries, &mut self.entries);
                proof {
                    lemma_at_key(entries@, key@, i as int);
                    lemma_map_of_remove(entries@, i as int);
                }
                entries.remove(i);
                self.entries = entries;
                true
            },
            None => {
                proof {
                    assert(self@ =~= self@.remove(key@));
                }
                false
            },
        }
    }
}

} // verus!
