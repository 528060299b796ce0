//! A string-keyed cache: the state of the reader/writer-locked map
//! example. Its contents are modeled as a map from key characters to
//! value characters; inserting an existing key overwrites its value.

use vstd::prelude::*;

verus! {

/// Character-by-character string equality: true exactly when the two
/// strings hold the same characters.
pub fn str_eq(a: &str, b: &str) -> (r: bool)
    ensures
        r <==> a@ == b@,
{
    let na = a.unicode_len();
    let nb = b.unicode_len();
    if na != nb {
        proof {
            assert(a@.len() != b@.len());
        }
        return false;
    }
    let mut i: usize = 0;
    while i < na
        invariant
            i <= na,
            na == a@.len(),
            na == b@.len(),
            forall|j: int| 0 <= j < i ==> a@[j] == b@[j],
        decreases na - i,
    {
        if a.get_char(i) != b.get_char(i) {
            return false;
        }
        i = i + 1;
    }
    proof {
        assert(a@ =~= b@);
    }
    true
}

/// True when no two entries share a key.
spec fn keys_unique(s: Seq<(String, String)>) -> bool {
    forall|i: int, j: int|
        0 <= i < j < s.len() ==> (#[trigger] s[i]).0@ != (#[trigger] s[j]).0@
}

/// The map an association list denotes: later entries would win, and
/// under [`keys_unique`] each key appears once.
spec fn map_of(s: Seq<(String, String)>) -> Map<Seq<char>, Seq<char>>
    decreases s.len(),
{
    if s.len() == 0 {
        Map::empty()
    } else {
        map_of(s.drop_last()).insert(s.last().0@, s.last().1@)
    }
}

/// A key is in the map exactly when some entry holds it.
proof fn lemma_map_of_contains(s: Seq<(String, String)>, k: Seq<char>)
    ensures
        map_of(s).contains_key(k) <==> exists|i: int| 0 <= i < s.len() && (#[trigger] s[i]).0@ == k,
    decreases s.len(),
{
    if s.len() > 0 {
        lemma_map_of_contains(s.drop_last(), k);
        if s.last().0@ == k {
            assert(s[s.len() - 1].0@ == k);
        } else if map_of(s).contains_key(k) {
            let i = choose|i: int| 0 <= i < s.drop_last().len() && (#[trigger] s.drop_last()[i]).0@
                == k;
            assert(s[i].0@ == k);
        } else {
            assert(forall|i: int|
                0 <= i < s.len() - 1 ==> (#[trigger] s[i]).0@ == s.drop_last()[i].0@);
        }
    }
}

/// Under unique keys, the map sends each entry's key to that entry's
/// value.
proof fn lemma_map_of_get(s: Seq<(String, String)>, i: int)
    requires
        keys_unique(s),
        0 <= i < s.len(),
    ensures
        map_of(s).contains_key(s[i].0@),
        map_of(s)[s[i].0@] == s[i].1@,
    decreases s.len(),
{
    if i == s.len() - 1 {
        assert(map_of(s) == map_of(s.drop_last()).insert(s.last().0@, s.last().1@));
    } else {
        assert(forall|p: int, q: int|
            0 <= p < q < s.drop_last().len() ==> (#[trigger] s.drop_last()[p]).0@
                != (#[trigger] s.drop_last()[q]).0@);
        lemma_map_of_get(s.drop_last(), i);
        assert(s[i].0@ != s.last().0@);
    }
}

/// Under unique keys, the map has exactly one entry per list element.
proof fn lemma_map_of_len(s: Seq<(String, String)>)
    requires
        keys_unique(s),
    ensures
        map_of(s).dom().finite(),
        map_of(s).dom().len() == s.len(),
    decreases s.len(),
{
    if s.len() > 0 {
        let front = s.drop_last();
        assert(forall|p: int, q: int|
            0 <= p < q < front.len() ==> (#[trigger] front[p]).0@ != (#[trigger] front[q]).0@);
        lemma_map_of_len(front);
        lemma_map_of_contains(front, s.last().0@);
        assert(forall|i: int| 0 <= i < front.len() ==> (#[trigger] front[i]).0@ == s[i].0@);
        assert(!map_of(front).contains_key(s.last().0@));
    }
}

/// Replacing the value of the entry that holds a key updates exactly
/// that key's image in the map.
proof fn lemma_map_of_update(s: Seq<(String, String)>, i: int, p: (String, String))
    requires
        keys_unique(s),
        0 <= i < s.len(),
        p.0@ == s[i].0@,
    ensures
        map_of(s.update(i, p)) =~= map_of(s).insert(p.0@, p.1@),
    decreases s.len(),
{
    let t = s.update(i, p);
    if i == s.len() - 1 {
        assert(t.drop_last() =~= s.drop_last());
        assert(t.last() == p);
    } else {
        let front = s.drop_last();
        assert(forall|a: int, b: int|
            0 <= a < b < front.len() ==> (#[trigger] front[a]).0@ != (#[trigger] front[b]).0@);
        lemma_map_of_update(front, i, p);
        assert(t.drop_last() =~= front.update(i, p));
        assert(t.last() == s.last());
    }
}

/// A key-to-value cache with owned string entries.
pub struct Cache {
    data: Vec<(String, String)>,
}

impl View for Cache {
    type V = Map<Seq<char>, Seq<char>>;

    closed spec fn view(&self) -> Map<Seq<char>, Seq<char>> {
        map_of(self.data@)
    }
}

impl Cache {
    /// The representation invariant: each key is stored at most once.
    pub closed spec fn wf(&self) -> bool {
        keys_unique(self.data@)
    }

    /// An empty cache.
    pub fn new() -> (c: Self)
        ensures
            c.wf(),
            c@ == Map::<Seq<char>, Seq<char>>::empty(),
    {
        Cache { data: Vec::new() }
    }

    /// The value stored under `key`, cloned, or `None` when the key is
    /// absent.
    pub fn get(&self, key: &str) -> (r: Option<String>)
        requires
            self.wf(),
        ensures
            self@.contains_key(key@) ==> (r matches Some(v) && v@ == self@[key@]),
            !self@.contains_key(key@) ==> r is None,
    {
        let n = self.data.len();
        let mut i: usize = 0;
        while i < n
            invariant
                i <= n,
                n == self.data@.len(),
                self.wf(),
                forall|j: int| 0 <= j < i ==> (#[trigger] self.data@[j]).0@ != key@,
            decreases n - i,
        {
            if str_eq(self.data[i].0.as_str(), key) {
                proof {
                    lemma_map_of_get(self.data@, i as int);
                }
                return Some(self.data[i].1.clone());
            }
            i = i + 1;
        }
        proof {
            lemma_map_of_contains(self.data@, key@);
        }
        None
    }

    /// Stores `value` under `key`, overwriting any previous value for
    /// that key.
    pub fn insert(&mut self, key: String, value: String)
        requires
            old(self).wf(),
        ensures
            final(self).wf(),
            final(self)@ == old(self)@.insert(key@, value@),
    {
        let n = self.data.len();
        let mut i: usize = 0;
        while i < n
            invariant
                i <= n,
                n == self.data@.len(),
                self.wf(),
                self.data@ == old(self).data@,
                forall|j: int| 0 <= j < i ==> (#[trigger] self.data@[j]).0@ != key@,
            decreases n - i,
        {
            if str_eq(self.data[i].0.as_str(), key.as_str()) {
                proof {
                    lemma_map_of_update(self.data@, i as int, (key, value));
                }
                self.data[i] = (key, value);
                proof {
                    assert forall|p: int, q: int|
                        0 <= p < q < self.data@.len() implies (#[trigger] self.data@[p]).0@
                        != (#[trigger] self.data@[q]).0@ by {
                        assert(old(self).data@[p].0@ != old(self).data@[q].0@);
                    }
                }
                return ;
            }
            i = i + 1;
        }
        self.data.push((key, value));
        proof {
            assert(self.data@.drop_last() =~= old(self).data@);
            assert(self.data@.last() == (key, value));
            assert forall|p: int, q: int|
                0 <= p < q < self.data@.len() implies (#[trigger] self.data@[p]).0@
                != (#[trigger] self.data@[q]).0@ by {
                if q < self.data@.len() - 1 {
                    assert(old(self).data@[p].0@ != old(self).data@[q].0@);
                } else {
                    assert(self.data@[p].0@ != key@);
                }
            }
        }
    }

    /// Number of keys currently stored.
    pub fn len(&self) -> (n: usize)
        requires
            self.wf(),
        ensures
            n == self@.dom().len(),
    {
        proof {
            lemma_map_of_len(self.data@);
        }
        self.data.len()
    }
}

} // verus!
