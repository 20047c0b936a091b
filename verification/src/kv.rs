//! A byte-keyed key-value store: the in-memory model of the raw storage
//! substrate the host provides.  Keys and values are byte strings; a lookup
//! returns the first entry whose key matches.

use vstd::prelude::*;

verus! {

/// The value of the first entry at or after position `i` whose key is `k`.
pub open spec fn kv_match_from(s: Seq<(Vec<u8>, Vec<u8>)>, k: Seq<u8>, i: int) -> Option<Seq<u8>>
    decreases s.len() - i,
{
    if i < 0 || i >= s.len() {
        None
    } else if s[i].0@ == k {
        Some(s[i].1@)
    } else {
        kv_match_from(s, k, i + 1)
    }
}

/// The value stored under key `k`, if any.
pub open spec fn kv_lookup(s: Seq<(Vec<u8>, Vec<u8>)>, k: Seq<u8>) -> Option<Seq<u8>> {
    kv_match_from(s, k, 0)
}

/// Replacing the entry at `j` with one that carries the same key leaves
/// every other key's lookup unchanged.
proof fn lemma_replace_other(
    s: Seq<(Vec<u8>, Vec<u8>)>,
    j: int,
    e: (Vec<u8>, Vec<u8>),
    k: Seq<u8>,
    i: int,
)
    requires
        0 <= j < s.len(),
        s[j].0@ == e.0@,
        k != e.0@,
        0 <= i,
    ensures
        kv_match_from(s.update(j, e), k, i) == kv_match_from(s, k, i),
    decreases s.len() - i,
{
    if i < s.len() {
        if i != j && s[i].0@ == k {
        } else {
            lemma_replace_other(s, j, e, k, i + 1);
        }
    }
}

/// Replacing the entry at `j`, when no earlier entry carries that key,
/// makes the lookup of that key return the new value.
proof fn lemma_replace_same(s: Seq<(Vec<u8>, Vec<u8>)>, j: int, e: (Vec<u8>, Vec<u8>), i: int)
    requires
        0 <= i <= j < s.len(),
        s[j].0@ == e.0@,
        forall|m: int| i <= m < j ==> #[trigger] s[m].0@ != e.0@,
    ensures
        kv_match_from(s.update(j, e), e.0@, i) == Some(e.1@),
    decreases j - i,
{
    if i < j {
        lemma_replace_same(s, j, e, i + 1);
    }
}

/// Appending an entry affects only lookups that found nothing before.
proof fn lemma_push_lookup(s: Seq<(Vec<u8>, Vec<u8>)>, e: (Vec<u8>, Vec<u8>), k: Seq<u8>, i: int)
    requires
        0 <= i <= s.len(),
    ensures
        kv_match_from(s.push(e), k, i) == match kv_match_from(s, k, i) {
            Some(v) => Some(v),
            None => if e.0@ == k {
                Some(e.1@)
            } else {
                None
            },
        },
    decreases s.len() - i,
{
    if i < s.len() {
        lemma_push_lookup(s, e, k, i + 1);
    } else {
        assert(s.push(e)[i] == e);
        assert(kv_match_from(s, k, i) is None);
        assert(kv_match_from(s.push(e), k, i + 1) is None);
    }
}

/// When no entry at or after `i` carries key `k`, the lookup finds nothing.
proof fn lemma_no_match(s: Seq<(Vec<u8>, Vec<u8>)>, k: Seq<u8>, i: int)
    requires
        0 <= i,
        forall|m: int| i <= m < s.len() ==> #[trigger] s[m].0@ != k,
    ensures
        kv_match_from(s, k, i) is None,
    decreases s.len() - i,
{
    if i < s.len() {
        lemma_no_match(s, k, i + 1);
    }
}

/// Whether two byte vectors hold the same bytes.
pub fn bytes_eq(a: &Vec<u8>, b: &Vec<u8>) -> (r: bool)
    ensures
        r == (a@ == b@),
{
    if a.len() != b.len() {
        assert(a@ != b@);
        return false;
    }
    let n = a.len();
    let mut i: usize = 0;
    while i < n
        invariant
            i <= n,
            n == a@.len() == b@.len(),
            forall|j: int| 0 <= j < i ==> a@[j] == b@[j],
        decreases n - i,
    {
        if a[i] != b[i] {
            return false;
        }
        i += 1;
    }
    proof {
        assert(a@ =~= b@);
    }
    true
}

/// Copies a byte vector.
pub fn clone_bytes(v: &Vec<u8>) -> (r: Vec<u8>)
    ensures
        r@ == v@,
{
    let mut r: Vec<u8> = Vec::new();
    let n = v.len();
    let mut i: usize = 0;
    while i < n
        invariant
            i <= n,
            n == v@.len(),
            r@ =~= v@.take(i as int),
        decreases n - i,
    {
        r.push(v[i]);
        proof {
            assert(r@ =~= v@.take(i + 1));
        }
        i += 1;
    }
    proof {
        assert(v@.take(n as int) =~= v@);
    }
    r
}

/// The in-memory byte-keyed store.
pub struct KvStore {
    pub entries: Vec<(Vec<u8>, Vec<u8>)>,
}

impl KvStore {
    /// The value stored under `k`, if any.
    pub open spec fn contents(&self, k: Seq<u8>) -> Option<Seq<u8>> {
        kv_lookup(self.entries@, k)
    }

    /// An empty store.
    pub fn new() -> (r: KvStore)
        ensures
            forall|k: Seq<u8>| r.contents(k) is None,
    {
        KvStore { entries: Vec::new() }
    }

    /// Looks a key up, handing back a copy of the stored value.
    pub fn get(&self, key: &Vec<u8>) -> (r: Option<Vec<u8>>)
        ensures
            match r {
                Some(v) => self.contents(key@) == Some(v@),
                None => self.contents(key@) is None,
            },
    {
        let n = self.entries.len();
        let mut i: usize = 0;
        while i < n
            invariant
                i <= n,
                n == self.entries@.len(),
                kv_match_from(self.entries@, key@, 0) == kv_match_from(
                    self.entries@,
                    key@,
                    i as int,
                ),
            decreases n - i,
        {
            let e = &self.entries[i];
            if bytes_eq(&e.0, key) {
                return Some(clone_bytes(&e.1));
            }
            i += 1;
        }
        None
    }

    /// Stores a value under a key, replacing the entry that a lookup of the
    /// key would find, and leaving every other key's lookup unchanged.
    pub fn set(&mut self, key: &Vec<u8>, value: Vec<u8>)
        ensures
            final(self).contents(key@) == Some(value@),
            forall|k: Seq<u8>|
                k != key@ ==> #[trigger] final(self).contents(k) == old(self).contents(k),
    {
        let n = self.entries.len();
        let mut i: usize = 0;
        while i < n
            invariant
                i <= n,
                self.entries@ == old(self).entries@,
                n == old(self).entries@.len(),
                forall|m: int| 0 <= m < i ==> #[trigger] old(self).entries@[m].0@ != key@,
            decreases n - i,
        {
            let e = &self.entries[i];
            if bytes_eq(&e.0, key) {
                let entry = (clone_bytes(key), value);
                let ghost gentry = entry;
                self.entries.set(i, entry);
                proof {
                    assert(self.entries@ == old(self).entries@.update(i as int, gentry));
                    lemma_replace_same(old(self).entries@, i as int, gentry, 0);
                    assert(self.contents(key@) == Some(value@));
                    assert forall|k: Seq<u8>| k != key@ implies #[trigger] self.contents(k)
                        == old(self).contents(k) by {
                        lemma_replace_other(old(self).entries@, i as int, gentry, k, 0);
                    };
                }
                return ;
            }
            i += 1;
        }
        let entry = (clone_bytes(key), value);
        let ghost gentry = entry;
        self.entries.push(entry);
        proof {
            assert(self.entries@ == old(self).entries@.push(gentry));
            lemma_no_match(old(self).entries@, key@, 0);
            lemma_push_lookup(old(self).entries@, gentry, key@, 0);
            assert(self.contents(key@) == Some(value@));
            assert forall|k: Seq<u8>| k != key@ implies #[trigger] self.contents(k) == old(
                self,
            ).contents(k) by {
                lemma_push_lookup(old(self).entries@, gentry, k, 0);
            };
        }
    }
}

} // verus!
