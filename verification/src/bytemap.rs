//! A verified map from byte-string keys to values, backed by an association
//! list with first-match lookup. Records in the bridge's state are keyed by
//! the byte encodings of their identifying seed tuples.

use vstd::prelude::*;
use vstd::pervasive::VecAdditionalExecFns;
use crate::bytes::bytes_eq;

verus! {

/// First entry of `s` whose key's contents equal `k`, if any.
pub open spec fn find_entry<V>(s: Seq<(Vec<u8>, V)>, k: Seq<u8>) -> Option<V>
    decreases s.len(),
{
    if s.len() == 0 {
        None
    } else if s[0].0@ == k {
        Some(s[0].1)
    } else {
        find_entry(s.drop_first(), k)
    }
}

proof fn lemma_find_first_match<V>(s: Seq<(Vec<u8>, V)>, k: Seq<u8>, i: int)
    requires
        0 <= i < s.len(),
        s[i].0@ == k,
        forall|j: int| 0 <= j < i ==> s[j].0@ != k,
    ensures
        find_entry(s, k) == Some(s[i].1),
    decreases i,
{
    if i > 0 {
        lemma_find_first_match(s.drop_first(), k, i - 1);
    }
}

proof fn lemma_find_absent<V>(s: Seq<(Vec<u8>, V)>, k: Seq<u8>)
    requires
        forall|j: int| 0 <= j < s.len() ==> s[j].0@ != k,
    ensures
        find_entry(s, k) is None,
    decreases s.len(),
{
    if s.len() > 0 {
        lemma_find_absent(s.drop_first(), k);
    }
}

proof fn lemma_find_update<V>(s: Seq<(Vec<u8>, V)>, i: int, e: (Vec<u8>, V), k2: Seq<u8>)
    requires
        0 <= i < s.len(),
        s[i].0@ == e.0@,
        k2 != e.0@,
    ensures
        find_entry(s.update(i, e), k2) == find_entry(s, k2),
    decreases s.len(),
{
    let s2 = s.update(i, e);
    if i == 0 {
        assert(s2.drop_first() =~= s.drop_first());
    } else {
        assert(s2.drop_first() =~= s.drop_first().update(i - 1, e));
        lemma_find_update(s.drop_first(), i - 1, e, k2);
    }
}

proof fn lemma_absent_no_match<V>(s: Seq<(Vec<u8>, V)>, k: Seq<u8>)
    requires
        find_entry(s, k) is None,
    ensures
        forall|j: int| 0 <= j < s.len() ==> s[j].0@ != k,
    decreases s.len(),
{
    if s.len() > 0 {
        lemma_absent_no_match(s.drop_first(), k);
        assert forall|j: int| 0 <= j < s.len() implies s[j].0@ != k by {
            if j > 0 {
                assert(s.drop_first()[j - 1] == s[j]);
            }
        }
    }
}

proof fn lemma_find_push<V>(s: Seq<(Vec<u8>, V)>, e: (Vec<u8>, V), k2: Seq<u8>)
    requires
        k2 != e.0@,
    ensures
        find_entry(s.push(e), k2) == find_entry(s, k2),
    decreases s.len(),
{
    if s.len() == 0 {
        assert(s.push(e)[0] == e);
        assert(s.push(e).drop_first() =~= Seq::<(Vec<u8>, V)>::empty());
        assert(find_entry(s.push(e).drop_first(), k2) is None);
        assert(find_entry(s.push(e), k2) is None);
        assert(find_entry(s, k2) is None);
    } else {
        assert(s.push(e)[0] == s[0]);
        assert(s.push(e).drop_first() =~= s.drop_first().push(e));
        lemma_find_push(s.drop_first(), e, k2);
        if s[0].0@ == k2 {
            assert(find_entry(s.push(e), k2) == Some(s[0].1));
            assert(find_entry(s, k2) == Some(s[0].1));
        } else {
            assert(find_entry(s.push(e), k2) == find_entry(s.drop_first().push(e), k2));
            assert(find_entry(s, k2) == find_entry(s.drop_first(), k2));
        }
    }
}

/// Map from byte strings to values of type `V`.
pub struct ByteMap<V> {
    entries: Vec<(Vec<u8>, V)>,
}

impl<V> ByteMap<V> {
    /// The value bound to key `k`, if any.
    pub closed spec fn spec_get(self, k: Seq<u8>) -> Option<V> {
        find_entry(self.entries@, k)
    }

    /// An empty map.
    pub fn new() -> (r: Self)
        ensures
            forall|k: Seq<u8>| #[trigger] r.spec_get(k) is None,
    {
        ByteMap { entries: Vec::new() }
    }

    fn find_index(&self, k: &Vec<u8>) -> (r: Option<usize>)
        ensures
            (match r {
                Some(i) => i < self.entries@.len() && self.entries@[i as int].0@ == k@
                    && self.spec_get(k@) == Some(self.entries@[i as int].1)
                    && (forall|j: int| 0 <= j < i ==> self.entries@[j].0@ != k@),
                None => self.spec_get(k@) is None,
            }),
    {
        let n: usize = self.entries.len();
        let mut i: usize = 0;
        while i < n
            invariant
                n == self.entries@.len(),
                i <= n,
                forall|j: int| 0 <= j < i ==> self.entries@[j].0@ != k@,
            decreases n - i,
        {
            if bytes_eq(&self.entries[i].0, k) {
                proof {
                    lemma_find_first_match(self.entries@, k@, i as int);
                }
                return Some(i);
            }
            i = i + 1;
        }
        proof {
            lemma_find_absent(self.entries@, k@);
        }
        None
    }

    /// Borrows the value bound to `k`, if any.
    pub fn get<'a>(&'a self, k: &Vec<u8>) -> (r: Option<&'a V>)
        ensures
            (match r {
                Some(v) => self.spec_get(k@) == Some(*v),
                None => self.spec_get(k@) is None,
            }),
    {
        match self.find_index(k) {
            Some(i) => Some(&self.entries[i].1),
            None => None,
        }
    }

    /// Binds `k` to `v`, leaving every other key unchanged.
    pub fn set(&mut self, k: Vec<u8>, v: V)
        ensures
            final(self).spec_get(k@) == Some(v),
            forall|k2: Seq<u8>| k2 != k@ ==> final(self).spec_get(k2) == old(self).spec_get(k2),
    {
        match self.find_index(&k) {
            Some(i) => {
                let ghost pre = self.entries@;
                let ghost kv = k@;
                self.entries.set(i, (k, v));
                proof {
                    assert(self.entries@ == pre.update(i as int, self.entries@[i as int]));
                    assert forall|j: int| 0 <= j < i implies self.entries@[j].0@ != kv by {
                        assert(pre[j].0@ != kv);
                    }
                    lemma_find_first_match(self.entries@, kv, i as int);
                    assert forall|k2: Seq<u8>| k2 != kv implies find_entry(
                        self.entries@,
                        k2,
                    ) == find_entry(pre, k2) by {
                        lemma_find_update(pre, i as int, self.entries@[i as int], k2);
                    }
                }
            },
            None => {
                let ghost pre = self.entries@;
                let ghost kv = k@;
                self.entries.push((k, v));
                proof {
                    assert(self.entries@ == pre.push(self.entries@[pre.len() as int]));
                    lemma_absent_no_match(pre, kv);
                    lemma_find_first_match(self.entries@, kv, pre.len() as int);
                    assert forall|k2: Seq<u8>| k2 != kv implies find_entry(
                        self.entries@,
                        k2,
                    ) == find_entry(pre, k2) by {
                        lemma_find_push(pre, self.entries@[pre.len() as int], k2);
                    }
                }
            },
        }
    }
}

} // verus!
