//! A small string-keyed store with map semantics: inserting under an
//! existing key replaces its value, lookups return the stored value. The
//! in-memory registries of the surrounding system are built on it.

use vstd::prelude::*;

verus! {

/// The value stored under a key: the first entry carrying it, if any.
pub open spec fn assoc_get<V>(entries: Seq<(String, V)>, k: Seq<char>) -> Option<V>
    decreases entries.len(),
{
    if entries.len() == 0 {
        None
    } else if entries[0].0@ == k {
        Some(entries[0].1)
    } else {
        assoc_get(entries.skip(1), k)
    }
}

/// The keys of the entries, in order.
pub open spec fn assoc_keys<V>(entries: Seq<(String, V)>) -> Seq<Seq<char>> {
    entries.map_values(|e: (String, V)| e.0@)
}

/// Lookups agree between two entry sequences whose keys agree position by
/// position and whose values agree wherever the key is the one looked up.
proof fn lemma_assoc_get_congruent<V>(s1: Seq<(String, V)>, s2: Seq<(String, V)>, k: Seq<char>)
    requires
        s1.len() == s2.len(),
        forall|i: int| 0 <= i < s1.len() ==> (#[trigger] s1[i]).0@ == s2[i].0@,
        forall|i: int| 0 <= i < s1.len() && (#[trigger] s1[i]).0@ == k ==> s1[i].1 == s2[i].1,
    ensures
        assoc_get(s1, k) == assoc_get(s2, k),
    decreases s1.len(),
{
    if s1.len() == 0 {
    } else if s1[0].0@ == k {
        assert(s1[0].1 == s2[0].1);
    } else {
        assert forall|i: int| 0 <= i < s1.skip(1).len() implies (#[trigger] s1.skip(1)[i]).0@
            == s2.skip(1)[i].0@ by {
            assert(s1.skip(1)[i] == s1[i + 1]);
            assert(s2.skip(1)[i] == s2[i + 1]);
        }
        assert forall|i: int|
            0 <= i < s1.skip(1).len() && (#[trigger] s1.skip(1)[i]).0@ == k implies s1.skip(
            1,
        )[i].1 == s2.skip(1)[i].1 by {
            assert(s1.skip(1)[i] == s1[i + 1]);
            assert(s2.skip(1)[i] == s2[i + 1]);
        }
        lemma_assoc_get_congruent(s1.skip(1), s2.skip(1), k);
    }
}

/// How a lookup sees one appended entry.
proof fn lemma_assoc_get_push<V>(s: Seq<(String, V)>, e: (String, V), k: Seq<char>)
    ensures
        assoc_get(s.push(e), k) == (if assoc_get(s, k) is Some {
            assoc_get(s, k)
        } else if e.0@ == k {
            Some(e.1)
        } else {
            None
        }),
    decreases s.len(),
{
    if s.len() == 0 {
        assert(s.push(e)[0] == e);
        assert(s.push(e).skip(1) =~= Seq::<(String, V)>::empty());
        if e.0@ != k {
            assert(assoc_get(s.push(e).skip(1), k) is None);
        }
    } else {
        assert(s.push(e)[0] == s[0]);
        assert(s.push(e).skip(1) =~= s.skip(1).push(e));
        lemma_assoc_get_push(s.skip(1), e, k);
    }
}

/// A lookup that hits the first entry carrying the key returns its value.
proof fn lemma_assoc_get_first<V>(s: Seq<(String, V)>, k: Seq<char>, j: int)
    requires
        0 <= j < s.len(),
        s[j].0@ == k,
        forall|i: int| 0 <= i < j ==> (#[trigger] s[i]).0@ != k,
    ensures
        assoc_get(s, k) == Some(s[j].1),
    decreases j,
{
    if j == 0 {
    } else {
        assert(s[0].0@ != k);
        assert(s.skip(1)[j - 1] == s[j]);
        assert forall|i: int| 0 <= i < j - 1 implies (#[trigger] s.skip(1)[i]).0@ != k by {
            assert(s.skip(1)[i] == s[i + 1]);
        }
        lemma_assoc_get_first(s.skip(1), k, j - 1);
    }
}

/// A lookup over entries none of which carries the key finds nothing.
proof fn lemma_assoc_get_absent<V>(s: Seq<(String, V)>, k: Seq<char>)
    requires
        forall|i: int| 0 <= i < s.len() ==> (#[trigger] s[i]).0@ != k,
    ensures
        assoc_get(s, k) is None,
    decreases s.len(),
{
    if s.len() > 0 {
        assert forall|i: int| 0 <= i < s.skip(1).len() implies (#[trigger] s.skip(1)[i]).0@
            != k by {
            assert(s.skip(1)[i] == s[i + 1]);
        }
        lemma_assoc_get_absent(s.skip(1), k);
    }
}

/// A string-keyed store; each key occurs at most once.
pub struct StrMap<V> {
    pub entries: Vec<(String, V)>,
}

impl<V> StrMap<V> {
    /// No key occurs twice.
    pub open spec fn wf(&self) -> bool {
        assoc_keys(self.entries@).no_duplicates()
    }

    /// The value stored under the key, if any.
    pub open spec fn spec_get(&self, k: Seq<char>) -> Option<V> {
        assoc_get(self.entries@, k)
    }

    pub fn new() -> (m: StrMap<V>)
        ensures
            m.wf(),
            m.entries@.len() == 0,
            forall|k: Seq<char>| #[trigger] m.spec_get(k) is None,
    {
        let m = StrMap { entries: Vec::new() };
        proof {
            assert(assoc_keys(m.entries@) =~= Seq::<Seq<char>>::empty());
            assert forall|k: Seq<char>| #[trigger] m.spec_get(k) is None by {
                lemma_assoc_get_absent(m.entries@, k);
            }
        }
        m
    }

    /// The position of the first entry carrying the key, if any.
    fn find_pos(&self, key: &String) -> (r: Option<usize>)
        ensures
            match r {
                Some(j) => j < self.entries@.len() && self.entries@[j as int].0@ == key@ && (
                forall|i: int| 0 <= i < j ==> (#[trigger] self.entries@[i]).0@ != key@),
                None => forall|i: int|
                    0 <= i < self.entries@.len() ==> (#[trigger] self.entries@[i]).0@ != key@,
            },
    {
        let n = self.entries.len();
        let mut i: usize = 0;
        while i < n
            invariant
                i <= n,
                n == self.entries@.len(),
                forall|k: int| 0 <= k < i ==> (#[trigger] self.entries@[k]).0@ != key@,
            decreases n - i,
        {
            if self.entries[i].0 == *key {
                return Some(i);
            }
            i = i + 1;
        }
        None
    }

    /// Whether a value is stored under the key.
    pub fn contains_key(&self, key: &String) -> (r: bool)
        ensures
            r == (self.spec_get(key@) is Some),
    {
        let pos = self.find_pos(key);
        proof {
            match pos {
                Some(j) => lemma_assoc_get_first(self.entries@, key@, j as int),
                None => lemma_assoc_get_absent(self.entries@, key@),
            }
        }
        match pos {
            Some(_) => true,
            None => false,
        }
    }

    /// A reference to the value stored under the key, if any.
    pub fn get(&self, key: &String) -> (r: Option<&V>)
        ensures
            match r {
                Some(v) => self.spec_get(key@) == Some(*v),
                None => self.spec_get(key@) is None,
            },
    {
        let pos = self.find_pos(key);
        proof {
            match pos {
                Some(j) => lemma_assoc_get_first(self.entries@, key@, j as int),
                None => lemma_assoc_get_absent(self.entries@, key@),
            }
        }
        match pos {
            Some(j) => Some(&self.entries[j].1),
            None => None,
        }
    }

    /// Store the value under the key, replacing what the key held before;
    /// every other key keeps its value.
    pub fn insert(&mut self, key: String, value: V)
        requires
            old(self).wf(),
        ensures
            final(self).wf(),
            final(self).spec_get(key@) == Some(value),
            forall|k: Seq<char>|
                k != key@ ==> #[trigger] final(self).spec_get(k) == old(self).spec_get(k),
    {
        let ghost pre = self.entries@;
        let pos = self.find_pos(&key);
        match pos {
            Some(j) => {
                let entry = &mut self.entries[j];
                let ghost entry_pre = *entry;
                entry.1 = value;
                proof {
                    let post = self.entries@;
                    assert(post == pre.update(j as int, *entry));
                    assert(entry.0@ == key@ && entry.1 == value);
                    assert(assoc_keys(post) =~= assoc_keys(pre));
                    lemma_assoc_get_first(post, key@, j as int);
                    assert(final(self).spec_get(key@) == Some(value));
                    assert forall|k: Seq<char>| k != key@ implies #[trigger] assoc_get(post, k)
                        == assoc_get(pre, k) by {
                        lemma_assoc_get_congruent(post, pre, k);
                    }
                }
            },
            None => {
                let ghost e_key = key@;
                proof {
                    assert(assoc_keys(pre).no_duplicates());
                }
                self.entries.push((key, value));
                proof {
                    let post = self.entries@;
                    let e = post.last();
                    assert(post == pre.push(e));
                    assert(e.0@ == e_key && e.1 == value);
                    assert(assoc_keys(post) =~= assoc_keys(pre).push(e_key));
                    assert forall|i: int| 0 <= i < assoc_keys(pre).len() implies #[trigger]
                        assoc_keys(pre)[i] != e_key by {
                        assert(assoc_keys(pre)[i] == pre[i].0@);
                    }
                    assert(assoc_keys(post).no_duplicates());
                    lemma_assoc_get_absent(pre, e_key);
                    lemma_assoc_get_push(pre, e, e_key);
                    assert forall|k: Seq<char>| k != e_key implies #[trigger] assoc_get(post, k)
                        == assoc_get(pre, k) by {
                        lemma_assoc_get_push(pre, e, k);
                    }
                }
            },
        }
    }

    /// How many keys are stored.
    pub fn len(&self) -> (n: usize)
        ensures
            n == self.entries@.len(),
    {
        self.entries.len()
    }
}

} // verus!
