//! A cache of decrypted data keys, looked up by the key as the key-management
//! service encrypted it.

use vstd::prelude::*;
use std::sync::Arc;

verus! {

/// A decrypted data key, shared between the cache and its readers.
pub type EncryptionKey = Arc<Vec<u8>>;

/// Whether two byte strings are equal.
pub fn bytes_eq(a: &[u8], b: &[u8]) -> (r: bool)
    ensures
        r == (a@ == b@),
{
    if a.len() != b.len() {
        return false;
    }
    let mut i: usize = 0;
    while i < a.len()
        invariant
            a@.len() == b@.len(),
            i <= a@.len(),
            forall|j: int| 0 <= j < i ==> a@[j] == b@[j],
        decreases a@.len() - i,
    {
        if a[i] != b[i] {
            return false;
        }
        i = i + 1;
    }
    assert(a@ =~= b@);
    true
}

/// Decrypted data keys by encrypted data key; each encrypted key occurs once.
pub struct EncryptionKeyCache {
    entries: Vec<(Vec<u8>, EncryptionKey)>,
    contents: Ghost<Map<Seq<u8>, Seq<u8>>>,
}

impl View for EncryptionKeyCache {
    type V = Map<Seq<u8>, Seq<u8>>;

    closed spec fn view(&self) -> Map<Seq<u8>, Seq<u8>> {
        self.contents@
    }
}

impl EncryptionKeyCache {
    /// The entries hold exactly the cached pairs, each encrypted key once.
    #[verifier::type_invariant]
    spec fn well_formed(&self) -> bool {
        entries_hold(self.entries@, self.contents@)
    }

    /// An empty cache.
    pub fn new() -> (r: Self)
        ensures
            r@ == Map::<Seq<u8>, Seq<u8>>::empty(),
    {
        EncryptionKeyCache { entries: Vec::new(), contents: Ghost(Map::empty()) }
    }

    /// The decrypted key cached for an encrypted key, if any.
    pub fn get(&self, encrypted_key: &[u8]) -> (r: Option<EncryptionKey>)
        ensures
            match r {
                Some(k) => self@.contains_key(encrypted_key@) && k@ == self@[encrypted_key@],
                None => !self@.contains_key(encrypted_key@),
            },
    {
        proof {
            use_type_invariant(self);
        }
        match position(&self.entries, encrypted_key, self.contents) {
            Some(i) => {
                proof {
                    assert(self.contents@.contains_key(self.entries@[i as int].0@));
                }
                Some(Arc::clone(&self.entries[i].1))
            },
            None => None,
        }
    }

    /// Caches a decrypted key for an encrypted key, replacing the one cached before.
    pub fn insert(&mut self, encrypted_key: Vec<u8>, decrypted_key: EncryptionKey)
        ensures
            final(self)@ == old(self)@.insert(encrypted_key@, decrypted_key@),
    {
        proof {
            use_type_invariant(&*self);
        }
        let mut taken = EncryptionKeyCache::new();
        std::mem::swap(self, &mut taken);
        let EncryptionKeyCache { entries, contents } = taken;
        let (entries, contents) = insert_entry(entries, contents, encrypted_key, decrypted_key);
        *self = EncryptionKeyCache { entries, contents };
    }
}

/// The entries hold exactly the pairs of the map, each encrypted key once.
spec fn entries_hold(entries: Seq<(Vec<u8>, EncryptionKey)>, contents: Map<Seq<u8>, Seq<u8>>) -> bool {
    &&& forall|i: int, j: int|
        0 <= i < j < entries.len() ==> #[trigger] entries[i].0@ != #[trigger] entries[j].0@
    &&& forall|i: int|
        0 <= i < entries.len() ==> #[trigger] contents.contains_key(entries[i].0@)
            && contents[entries[i].0@] == entries[i].1@
    &&& forall|k: Seq<u8>|
        #[trigger] contents.contains_key(k) ==> exists|i: int|
            0 <= i < entries.len() && #[trigger] entries[i].0@ == k
}

/// The position of an encrypted key among the entries.
fn position(
    entries: &Vec<(Vec<u8>, EncryptionKey)>,
    encrypted_key: &[u8],
    contents: Ghost<Map<Seq<u8>, Seq<u8>>>,
) -> (r: Option<usize>)
    requires
        entries_hold(entries@, contents@),
    ensures
        match r {
            Some(i) => i < entries@.len() && entries@[i as int].0@ == encrypted_key@,
            None => !contents@.contains_key(encrypted_key@),
        },
{
    let mut i: usize = 0;
    while i < entries.len()
        invariant
            entries_hold(entries@, contents@),
            i <= entries@.len(),
            forall|j: int| 0 <= j < i ==> #[trigger] entries@[j].0@ != encrypted_key@,
        decreases entries@.len() - i,
    {
        if bytes_eq(entries[i].0.as_slice(), encrypted_key) {
            return Some(i);
        }
        i = i + 1;
    }
    None
}

/// The entries and map after caching a decrypted key for an encrypted key.
fn insert_entry(
    entries: Vec<(Vec<u8>, EncryptionKey)>,
    contents: Ghost<Map<Seq<u8>, Seq<u8>>>,
    encrypted_key: Vec<u8>,
    decrypted_key: EncryptionKey,
) -> (r: (Vec<(Vec<u8>, EncryptionKey)>, Ghost<Map<Seq<u8>, Seq<u8>>>))
    requires
        entries_hold(entries@, contents@),
    ensures
        entries_hold(r.0@, r.1@),
        r.1@ == contents@.insert(encrypted_key@, decrypted_key@),
{
    let ghost k = encrypted_key@;
    let ghost v = decrypted_key@;
    let ghost old_entries = entries@;
    let ghost new_contents = contents@.insert(k, v);
    let mut entries = entries;
    match position(&entries, encrypted_key.as_slice(), contents) {
        Some(i) => {
            entries.set(i, (encrypted_key, decrypted_key));
            proof {
                assert forall|j: int| 0 <= j < entries@.len() implies #[trigger] entries@[j].0@
                    == old_entries[j].0@ by {}
                assert forall|j: int| 0 <= j < entries@.len() implies #[trigger] new_contents.contains_key(
                    entries@[j].0@) && new_contents[entries@[j].0@] == entries@[j].1@ by {
                    if j != i {
                        assert(contents@.contains_key(old_entries[j].0@));
                    }
                }
                assert forall|k2: Seq<u8>| #[trigger] new_contents.contains_key(k2) implies exists|j: int|
                    0 <= j < entries@.len() && #[trigger] entries@[j].0@ == k2 by {
                    if k2 == k {
                        assert(entries@[i as int].0@ == k2);
                    } else {
                        assert(contents@.contains_key(k2));
                        let j = choose|j: int| 0 <= j < old_entries.len() && #[trigger] old_entries[j].0@ == k2;
                        assert(entries@[j].0@ == k2);
                    }
                }
            }
        },
        None => {
            entries.push((encrypted_key, decrypted_key));
            proof {
                let n = entries@.len() - 1;
                assert(entries@[n].0@ == k);
                assert forall|j: int| 0 <= j < n implies #[trigger] old_entries[j].0@ != k by {
                    assert(contents@.contains_key(old_entries[j].0@));
                }
                assert forall|j: int| 0 <= j < n implies #[trigger] entries@[j] == old_entries[j] by {}
                assert forall|j: int| 0 <= j < entries@.len() implies #[trigger] new_contents.contains_key(
                    entries@[j].0@) && new_contents[entries@[j].0@] == entries@[j].1@ by {
                    if j != n {
                        assert(contents@.contains_key(old_entries[j].0@));
                    }
                }
                assert forall|k2: Seq<u8>| #[trigger] new_contents.contains_key(k2) implies exists|j: int|
                    0 <= j < entries@.len() && #[trigger] entries@[j].0@ == k2 by {
                    if k2 == k {
                        assert(entries@[n].0@ == k2);
                    } else {
                        assert(contents@.contains_key(k2));
                        let j = choose|j: int| 0 <= j < old_entries.len() && #[trigger] old_entries[j].0@ == k2;
                        assert(entries@[j].0@ == k2);
                    }
                }
            }
        },
    }
    (entries, Ghost(new_contents))
}

/// A read after a write gives back what was written: after `insert(k, v)`,
/// looking up `k` gives `v`, and every other key keeps its entry.
pub proof fn lemma_get_after_insert(
    before: Map<Seq<u8>, Seq<u8>>,
    k: Seq<u8>,
    v: Seq<u8>,
    other: Seq<u8>,
)
    requires
        other != k,
    ensures
        before.insert(k, v).contains_key(k),
        before.insert(k, v)[k] == v,
        before.insert(k, v).contains_key(other) == before.contains_key(other),
        before.contains_key(other) ==> before.insert(k, v)[other] == before[other],
{
}

} // verus!
