//! The shared key/value store that the storage tools read and write.
//! Keys are unique; there is no eviction, no size bound and no
//! persistence. The store is owned by whoever drives the engine and is
//! handed in at construction, so every test gets a fresh one.

use vstd::prelude::*;
use vstd::string::StringExecFns;

verus! {

/// True when `s` holds an entry whose key reads `k`.
pub open spec fn has_key(s: Seq<(String, String)>, k: Seq<char>) -> bool {
    exists|j: int| 0 <= j < s.len() && s[j].0@ == k
}

/// True when no two entries share a key.
pub open spec fn distinct_keys(s: Seq<(String, String)>) -> bool {
    forall|i: int, j: int| 0 <= i < j < s.len() ==> s[i].0@ != s[j].0@
}

/// The value under `k` in `s`, if any. With distinct keys the chosen
/// entry is the only one.
pub open spec fn seq_lookup(s: Seq<(String, String)>, k: Seq<char>) -> Option<Seq<char>> {
    if has_key(s, k) {
        let j = choose|j: int| 0 <= j < s.len() && s[j].0@ == k;
        Some(s[j].1@)
    } else {
        None
    }
}

proof fn lemma_lookup_at(s: Seq<(String, String)>, k: Seq<char>, i: int)
    requires
        distinct_keys(s),
        0 <= i < s.len(),
        s[i].0@ == k,
    ensures
        seq_lookup(s, k) == Some(s[i].1@),
{
    assert(has_key(s, k));
    let j = choose|j: int| 0 <= j < s.len() && s[j].0@ == k;
    if i < j {
        assert(s[i].0@ != s[j].0@);
    } else if j < i {
        assert(s[j].0@ != s[i].0@);
    }
}

/// An in-memory mapping from string keys to string values.
pub struct KvStore {
    entries: Vec<(String, String)>,
}

impl KvStore {
    /// Key uniqueness: established at construction, kept by every
    /// operation.
    pub closed spec fn wf(self) -> bool {
        distinct_keys(self.entries@)
    }

    /// The value stored under `k`, if any.
    pub closed spec fn spec_get(self, k: Seq<char>) -> Option<Seq<char>> {
        seq_lookup(self.entries@, k)
    }

    /// How many keys are stored.
    pub closed spec fn spec_len(self) -> nat {
        self.entries@.len()
    }

    /// The stored keys, in insertion order.
    pub closed spec fn spec_keys(self) -> Seq<Seq<char>> {
        Seq::new(self.entries@.len(), |i: int| self.entries@[i].0@)
    }

    /// A fresh, empty store.
    pub fn new() -> (r: KvStore)
        ensures
            r.wf(),
            r.spec_len() == 0,
            forall|k: Seq<char>| r.spec_get(k) is None,
    {
        KvStore { entries: Vec::new() }
    }

    /// Looks a key up.
    pub fn get(&self, key: &str) -> (r: Option<String>)
        requires
            self.wf(),
        ensures
            match r {
                Some(v) => self.spec_get(key@) == Some(v@),
                None => self.spec_get(key@) is None,
            },
    {
        let n = self.entries.len();
        let mut i: usize = 0;
        while i < n
            invariant
                n == self.entries.len(),
                i <= n,
                self.wf(),
                forall|j: int| 0 <= j < i ==> self.entries@[j].0@ != key@,
            decreases n - i,
        {
            if crate::text::str_is(self.entries[i].0.as_str(), key) {
                let v = self.entries[i].1.clone();
                proof {
                    lemma_lookup_at(self.entries@, key@, i as int);
                }
                return Some(v);
            }
            i = i + 1;
        }
        proof {
            assert(!has_key(self.entries@, key@));
        }
        None
    }

    /// Removes a key; reports whether it was present.
    pub fn remove(&mut self, key: &str) -> (r: bool)
        requires
            old(self).wf(),
        ensures
            final(self).wf(),
            r == (old(self).spec_get(key@) is Some),
            final(self).spec_get(key@) is None,
            forall|k2: Seq<char>| k2 != key@ ==> final(self).spec_get(k2) == old(self).spec_get(
                k2,
            ),
            r ==> final(self).spec_len() + 1 == old(self).spec_len(),
            !r ==> *final(self) == *old(self),
    {
        let n = self.entries.len();
        let mut i: usize = 0;
        while i < n
            invariant
                n == self.entries.len(),
                i <= n,
                self.wf(),
                self == old(self),
                forall|j: int| 0 <= j < i ==> self.entries@[j].0@ != key@,
            decreases n - i,
        {
            if crate::text::str_is(self.entries[i].0.as_str(), key) {
                proof {
                    lemma_lookup_at(self.entries@, key@, i as int);
                }
                let ghost prev = self.entries@;
                self.entries.remove(i);
                proof {
                    assert forall|a: int, b: int|
                        0 <= a < b < self.entries@.len() implies self.entries@[a].0@
                        != self.entries@[b].0@ by {
                        assert(self.entries@[a] == if a < i as int {
                            prev[a]
                        } else {
                            prev[a + 1]
                        });
                        assert(self.entries@[b] == if b < i as int {
                            prev[b]
                        } else {
                            prev[b + 1]
                        });
                    }
                    assert forall|j: int| 0 <= j < self.entries@.len() implies self.entries@[j].0@
                        != key@ by {
                        assert(self.entries@[j] == if j < i as int {
                            prev[j]
                        } else {
                            prev[j + 1]
                        });
                        if j >= i as int {
                            if prev[j + 1].0@ == key@ {
                                assert(prev[i as int].0@ != prev[j + 1].0@);
                            }
                        }
                    }
                    assert(!has_key(self.entries@, key@));
                    assert forall|k2: Seq<char>| k2 != key@ implies self.spec_get(k2) == old(
                        self,
                    ).spec_get(k2) by {
                        lemma_remove_preserves(prev, i as int, k2);
                    }
                }
                return true;
            }
            i = i + 1;
        }
        proof {
            assert(!has_key(self.entries@, key@));
        }
        false
    }

    /// Stores a value under a key, replacing any previous value.
    pub fn set(&mut self, key: &str, value: &str)
        requires
            old(self).wf(),
        ensures
            final(self).wf(),
            final(self).spec_get(key@) == Some(value@),
            forall|k2: Seq<char>| k2 != key@ ==> final(self).spec_get(k2) == old(self).spec_get(
                k2,
            ),
            old(self).spec_get(key@) is Some ==> final(self).spec_len() == old(self).spec_len(),
            old(self).spec_get(key@) is None ==> final(self).spec_len() == old(self).spec_len()
                + 1,
    {
        let _was = self.remove(key);
        let ghost mid = *self;
        let ks = String::from_str(key);
        let vs = String::from_str(value);
        self.entries.push((ks, vs));
        proof {
            let n = mid.entries@.len() as int;
            assert(forall|j: int| 0 <= j < n ==> self.entries@[j] == mid.entries@[j]);
            assert(self.entries@[n].0@ == key@);
            assert forall|a: int, b: int|
                0 <= a < b < self.entries@.len() implies self.entries@[a].0@
                != self.entries@[b].0@ by {
                if b == n {
                    if mid.entries@[a].0@ == key@ {
                        assert(has_key(mid.entries@, key@));
                    }
                }
            }
            lemma_lookup_at(self.entries@, key@, n);
            assert forall|k2: Seq<char>| k2 != key@ implies self.spec_get(k2) == mid.spec_get(
                k2,
            ) by {
                if has_key(mid.entries@, k2) {
                    let j = choose|j: int| 0 <= j < mid.entries@.len() && mid.entries@[j].0@ == k2;
                    lemma_lookup_at(self.entries@, k2, j);
                    lemma_lookup_at(mid.entries@, k2, j);
                } else {
                    if has_key(self.entries@, k2) {
                        let j = choose|j: int|
                            0 <= j < self.entries@.len() && self.entries@[j].0@ == k2;
                        assert(j != n);
                        assert(mid.entries@[j].0@ == k2);
                    }
                }
            }
        }
    }

    /// How many keys are stored.
    pub fn len(&self) -> (r: usize)
        ensures
            r == self.spec_len(),
    {
        self.entries.len()
    }

    /// All stored keys, in insertion order.
    pub fn keys(&self) -> (r: Vec<String>)
        ensures
            r@.len() == self.spec_len(),
            r@.len() == self.spec_keys().len(),
            forall|i: int| 0 <= i < r@.len() ==> r@[i]@ == self.spec_keys()[i],
    {
        let n = self.entries.len();
        let mut out: Vec<String> = Vec::new();
        let mut i: usize = 0;
        while i < n
            invariant
                n == self.entries.len(),
                i <= n,
                out@.len() == i,
                forall|j: int| 0 <= j < i ==> out@[j]@ == self.spec_keys()[j],
            decreases n - i,
        {
            out.push(self.entries[i].0.clone());
            i = i + 1;
        }
        out
    }

    /// A stored key is exactly one that `spec_keys` lists: what
    /// `storage_list` reports is the set of keys with a stored value.
    pub proof fn lemma_key_listed(self, k: Seq<char>)
        requires
            self.wf(),
        ensures
            (self.spec_get(k) is Some) <==> self.spec_keys().contains(k),
    {
        if self.spec_keys().contains(k) {
            let i = choose|i: int| 0 <= i < self.spec_keys().len() && self.spec_keys()[i] == k;
            assert(self.entries@[i].0@ == k);
            assert(has_key(self.entries@, k));
        }
        if has_key(self.entries@, k) {
            let j = choose|j: int| 0 <= j < self.entries@.len() && self.entries@[j].0@ == k;
            assert(self.spec_keys()[j] == k);
        }
    }
}

/// The listed keys carry no repeats: key uniqueness is not only an
/// internal invariant, it shows in what `storage_list` reports.
pub proof fn lemma_keys_distinct(s: KvStore)
    requires
        s.wf(),
    ensures
        forall|i: int, j: int|
            0 <= i < j < s.spec_keys().len() ==> s.spec_keys()[i] != s.spec_keys()[j],
{
}

/// One write between two stores, as `set`'s contract describes it: the
/// key now reads the value, every other key is untouched, and the count
/// grows exactly when the key was absent.
pub open spec fn set_step(pre: KvStore, post: KvStore, k: Seq<char>, v: Seq<char>) -> bool {
    &&& post.spec_get(k) == Some(v)
    &&& forall|k2: Seq<char>| k2 != k ==> post.spec_get(k2) == pre.spec_get(k2)
    &&& (pre.spec_get(k) is None ==> post.spec_len() == pre.spec_len() + 1)
    &&& (pre.spec_get(k) is Some ==> post.spec_len() == pre.spec_len())
}

/// However many writes with pairwise-distinct, initially absent keys
/// run one after another — any serialization of concurrent writers —
/// every written pair reads back at the end, every untouched key is
/// undisturbed, and the store grew by exactly the number of writes: no
/// lost, duplicated or corrupted entries.
pub proof fn lemma_all_writes_land(stores: Seq<KvStore>, pairs: Seq<(Seq<char>, Seq<char>)>)
    requires
        stores.len() == pairs.len() + 1,
        forall|i: int|
            0 <= i < pairs.len() ==> set_step(
                stores[i],
                #[trigger] stores[i + 1],
                pairs[i].0,
                pairs[i].1,
            ),
        forall|i: int, j: int| 0 <= i < j < pairs.len() ==> pairs[i].0 != pairs[j].0,
        forall|i: int| 0 <= i < pairs.len() ==> stores[0].spec_get(#[trigger] pairs[i].0) is None,
    ensures
        forall|i: int|
            0 <= i < pairs.len() ==> stores.last().spec_get(#[trigger] pairs[i].0) == Some(
                pairs[i].1,
            ),
        forall|k: Seq<char>|
            (forall|i: int| 0 <= i < pairs.len() ==> #[trigger] pairs[i].0 != k)
                ==> stores.last().spec_get(k) == stores[0].spec_get(k),
        stores.last().spec_len() == stores[0].spec_len() + pairs.len(),
    decreases pairs.len(),
{
    if pairs.len() == 0 {
        assert(stores.last() == stores[0]);
    } else {
        let m = pairs.len() - 1;
        let sub = stores.drop_last();
        let subp = pairs.drop_last();
        assert(forall|i: int| 0 <= i < sub.len() ==> sub[i] == stores[i]);
        assert(forall|i: int| 0 <= i < subp.len() ==> subp[i] == pairs[i]);
        assert forall|i: int|
            0 <= i < subp.len() implies set_step(
            sub[i],
            #[trigger] sub[i + 1],
            subp[i].0,
            subp[i].1,
        ) by {
            assert(set_step(stores[i], stores[i + 1], pairs[i].0, pairs[i].1));
        }
        lemma_all_writes_land(sub, subp);
        assert(sub.last() == stores[m]);
        assert(set_step(stores[m], stores[m + 1], pairs[m].0, pairs[m].1));
        assert(stores[m + 1] == stores.last());
        assert(stores[m].spec_get(pairs[m].0) == stores[0].spec_get(pairs[m].0));
        assert forall|i: int|
            0 <= i < pairs.len() implies stores.last().spec_get(#[trigger] pairs[i].0) == Some(
            pairs[i].1,
        ) by {
            if i < m {
                assert(sub.last().spec_get(subp[i].0) == Some(subp[i].1));
                assert(pairs[i].0 != pairs[m].0);
            }
        }
    }
}

/// No lost updates: after a write of `k1` and a later write of a
/// distinct `k2` — each shaped as `set`'s contract describes — both keys
/// still read back their own values. Distinct writes do not disturb one
/// another, however many are interleaved.
pub proof fn lemma_no_lost_update(
    s0: KvStore,
    s1: KvStore,
    s2: KvStore,
    k1: Seq<char>,
    v1: Seq<char>,
    k2: Seq<char>,
    v2: Seq<char>,
)
    requires
        k1 != k2,
        s1.spec_get(k1) == Some(v1),
        forall|k: Seq<char>| k != k1 ==> s1.spec_get(k) == s0.spec_get(k),
        s2.spec_get(k2) == Some(v2),
        forall|k: Seq<char>| k != k2 ==> s2.spec_get(k) == s1.spec_get(k),
    ensures
        s2.spec_get(k1) == Some(v1),
        s2.spec_get(k2) == Some(v2),
{
}

proof fn lemma_remove_preserves(prev: Seq<(String, String)>, i: int, k2: Seq<char>)
    requires
        distinct_keys(prev),
        0 <= i < prev.len(),
        prev[i].0@ != k2,
    ensures
        seq_lookup(prev.remove(i), k2) == seq_lookup(prev, k2),
{
    let cur = prev.remove(i);
    assert(forall|a: int| 0 <= a < cur.len() ==> cur[a] == if a < i {
        prev[a]
    } else {
        prev[a + 1]
    });
    assert forall|a: int, b: int| 0 <= a < b < cur.len() implies cur[a].0@ != cur[b].0@ by {}
    if has_key(prev, k2) {
        let j = choose|j: int| 0 <= j < prev.len() && prev[j].0@ == k2;
        assert(j != i);
        if j < i {
            assert(cur[j].0@ == k2);
            lemma_lookup_at(cur, k2, j);
        } else {
            assert(cur[j - 1].0@ == k2);
            lemma_lookup_at(cur, k2, j - 1);
        }
        lemma_lookup_at(prev, k2, j);
    } else {
        if has_key(cur, k2) {
            let a = choose|a: int| 0 <= a < cur.len() && cur[a].0@ == k2;
            if a < i {
                assert(prev[a].0@ == k2);
            } else {
                assert(prev[a + 1].0@ == k2);
            }
        }
    }
}

} // verus!
