//! The artifact store: blobs by digest, uploads by id, and manifests by
//! repository and reference. Each container is a map; the caller supplies
//! the mutual exclusion.

use bytes::Bytes;
use vstd::prelude::*;

use crate::buffer::{bytes_view, share_bytes};

verus! {

/// The query of a blob push: the digest to store the blob under, used
/// verbatim as its key.
#[derive(Debug, Clone)]
pub struct PushQuery {
    pub digest: String,
}

/// A map from strings to byte buffers.
pub struct ByteStore {
    keys: Vec<String>,
    vals: Vec<Bytes>,
    contents: Ghost<Map<Seq<char>, Seq<u8>>>,
}

/// Blobs, keyed by digest.
pub type BlobStore = ByteStore;

/// Uploads in progress, keyed by upload id.
pub type UploadStore = ByteStore;

impl View for ByteStore {
    type V = Map<Seq<char>, Seq<u8>>;

    closed spec fn view(&self) -> Map<Seq<char>, Seq<u8>> {
        self.contents@
    }
}

impl ByteStore {
    /// The entries are the map: one per key, and nothing else.
    pub closed spec fn wf(&self) -> bool {
        &&& self.keys.len() == self.vals.len()
        &&& forall|i: int, j: int|
            0 <= i < j < self.keys.len() ==> self.keys@[i]@ != self.keys@[j]@
        &&& forall|i: int|
            0 <= i < self.keys.len() ==> #[trigger] self.contents@.contains_key(self.keys@[i]@)
                && self.contents@[self.keys@[i]@] == bytes_view(self.vals@[i])
        &&& forall|k: Seq<char>|
            #[trigger] self.contents@.contains_key(k) ==> exists|i: int|
                0 <= i < self.keys.len() && self.keys@[i]@ == k
    }

    /// An empty map.
    pub fn new() -> (r: ByteStore)
        ensures
            r.wf(),
            r@ == Map::<Seq<char>, Seq<u8>>::empty(),
    {
        ByteStore { keys: Vec::new(), vals: Vec::new(), contents: Ghost(Map::empty()) }
    }

    fn find(&self, key: &String) -> (r: Option<usize>)
        requires
            self.wf(),
        ensures
            match r {
                Some(i) => i < self.keys.len() && self.keys@[i as int]@ == key@,
                None => !self@.contains_key(key@),
            },
    {
        let mut i: usize = 0;
        while i < self.keys.len()
            invariant
                self.wf(),
                i <= self.keys.len(),
                forall|j: int| 0 <= j < i ==> self.keys@[j]@ != key@,
            decreases self.keys.len() - i,
        {
            if self.keys[i] == *key {
                return Some(i);
            }
            i = i + 1;
        }
        None
    }

    /// Whether `key` is present.
    pub fn contains(&self, key: &String) -> (r: bool)
        requires
            self.wf(),
        ensures
            r == self@.contains_key(key@),
    {
        self.find(key).is_some()
    }

    /// A shared handle on the bytes stored under `key`, if any.
    pub fn get(&self, key: &String) -> (r: Option<Bytes>)
        requires
            self.wf(),
        ensures
            match r {
                Some(b) => self@.contains_key(key@) && bytes_view(b) == self@[key@],
                None => !self@.contains_key(key@),
            },
    {
        match self.find(key) {
            Some(i) => {
                proof {
                    assert(self.contents@.contains_key(self.keys@[i as int]@));
                }
                Some(share_bytes(&self.vals[i]))
            },
            None => None,
        }
    }

    /// Stores `value` under `key`, replacing what was there.
    pub fn put(&mut self, key: String, value: Bytes)
        requires
            old(self).wf(),
        ensures
            final(self).wf(),
            final(self)@ == old(self)@.insert(key@, bytes_view(value)),
    {
        let ghost k = key@;
        let ghost v = bytes_view(value);
        match self.find(&key) {
            Some(i) => {
                self.vals.set(i, value);
                self.contents = Ghost(self.contents@.insert(k, v));
                proof {
                    assert forall|kk: Seq<char>| #[trigger] self.contents@.contains_key(kk) implies exists|j: int|
                        0 <= j < self.keys.len() && self.keys@[j]@ == kk by {
                        if kk != k {
                            assert(old(self).contents@.contains_key(kk));
                            let j = choose|j: int| 0 <= j < old(self).keys.len() && old(self).keys@[j]@ == kk;
                            assert(self.keys@[j]@ == kk);
                        } else {
                            assert(self.keys@[i as int]@ == kk);
                        }
                    }
                    assert forall|a: int| 0 <= a < self.keys.len() implies #[trigger] self.contents@.contains_key(self.keys@[a]@)
                        && self.contents@[self.keys@[a]@] == bytes_view(self.vals@[a]) by {
                        if a != i {
                            assert(old(self).contents@.contains_key(old(self).keys@[a]@));
                        }
                    }
                }
            },
            None => {
                self.keys.push(key);
                self.vals.push(value);
                self.contents = Ghost(self.contents@.insert(k, v));
                proof {
                    let n = self.keys.len() - 1;
                    assert(self.keys@[n as int]@ == k);
                    assert forall|kk: Seq<char>| #[trigger] self.contents@.contains_key(kk) implies exists|j: int|
                        0 <= j < self.keys.len() && self.keys@[j]@ == kk by {
                        if kk != k {
                            assert(old(self).contents@.contains_key(kk));
                            let j = choose|j: int| 0 <= j < old(self).keys.len() && old(self).keys@[j]@ == kk;
                            assert(self.keys@[j]@ == kk);
                        }
                    }
                    assert forall|i: int| 0 <= i < self.keys.len() implies #[trigger] self.contents@.contains_key(self.keys@[i]@)
                        && self.contents@[self.keys@[i]@] == bytes_view(self.vals@[i]) by {
                        if i < n {
                            assert(old(self).contents@.contains_key(old(self).keys@[i]@));
                        }
                    }
                }
            },
        }
    }

    /// Removes `key` and returns what was stored under it, if anything.
    pub fn take(&mut self, key: &String) -> (r: Option<Bytes>)
        requires
            old(self).wf(),
        ensures
            final(self).wf(),
            final(self)@ == old(self)@.remove(key@),
            match r {
                Some(b) => old(self)@.contains_key(key@) && bytes_view(b) == old(self)@[key@],
                None => !old(self)@.contains_key(key@),
            },
    {
        match self.find(key) {
            Some(i) => {
                let ghost k = key@;
                let ghost okeys = self.keys@;
                let ghost ovals = self.vals@;
                let last = self.keys.len() - 1;
                let _ = self.keys.swap_remove(i);
                let b = self.vals.swap_remove(i);
                proof {
                    assert(old(self).contents@.contains_key(okeys[i as int]@));
                }
                self.contents = Ghost(self.contents@.remove(k));
                proof {
                    assert forall|a: int, c: int| 0 <= a < c < self.keys.len() implies self.keys@[a]@ != self.keys@[c]@ by {
                        let oa = if a == i { last as int } else { a };
                        let oc = if c == i { last as int } else { c };
                        assert(self.keys@[a] == okeys[oa]);
                        assert(self.keys@[c] == okeys[oc]);
                    }
                    assert forall|a: int| 0 <= a < self.keys.len() implies #[trigger] self.contents@.contains_key(self.keys@[a]@)
                        && self.contents@[self.keys@[a]@] == bytes_view(self.vals@[a]) by {
                        let oa = if a == i { last as int } else { a };
                        assert(self.keys@[a] == okeys[oa]);
                        assert(self.vals@[a] == ovals[oa]);
                        assert(old(self).contents@.contains_key(okeys[oa]@));
                        assert(okeys[oa]@ != k);
                    }
                    assert forall|kk: Seq<char>| #[trigger] self.contents@.contains_key(kk) implies exists|j: int|
                        0 <= j < self.keys.len() && self.keys@[j]@ == kk by {
                        assert(old(self).contents@.contains_key(kk));
                        let j = choose|j: int| 0 <= j < okeys.len() && okeys[j]@ == kk;
                        assert(j != i);
                        if j == last {
                            assert(self.keys@[i as int]@ == kk);
                        } else {
                            assert(self.keys@[j]@ == kk);
                        }
                    }
                }
                Some(b)
            },
            None => {
                proof {
                    assert(self.contents@.remove(key@) =~= self.contents@);
                }
                None
            },
        }
    }
}

/// Creates the blob store, empty.
pub fn new_blob_store() -> (r: BlobStore)
    ensures
        r.wf(),
        r@ == Map::<Seq<char>, Seq<u8>>::empty(),
{
    ByteStore::new()
}

/// Creates the upload store, empty.
pub fn new_upload_store() -> (r: UploadStore)
    ensures
        r.wf(),
        r@ == Map::<Seq<char>, Seq<u8>>::empty(),
{
    ByteStore::new()
}

/// A manifest as stored: its content type and its bytes, verbatim.
#[derive(Debug)]
pub struct Manifest {
    pub content_type: String,
    pub content: Bytes,
}

/// What a stored manifest holds: its content type and its bytes.
pub open spec fn record_view(m: Manifest) -> (Seq<char>, Seq<u8>) {
    (m.content_type@, bytes_view(m.content))
}

impl Manifest {
    /// A second record with the same content type and a shared handle on the
    /// same bytes.
    pub fn share(&self) -> (r: Manifest)
        ensures
            record_view(r) == record_view(*self),
    {
        Manifest { content_type: self.content_type.clone(), content: share_bytes(&self.content) }
    }
}

/// Manifests, keyed by repository and reference (a tag or a digest).
pub struct ManifestStore {
    repos: Vec<String>,
    refs: Vec<String>,
    vals: Vec<Manifest>,
    contents: Ghost<Map<(Seq<char>, Seq<char>), (Seq<char>, Seq<u8>)>>,
}

impl View for ManifestStore {
    type V = Map<(Seq<char>, Seq<char>), (Seq<char>, Seq<u8>)>;

    closed spec fn view(&self) -> Map<(Seq<char>, Seq<char>), (Seq<char>, Seq<u8>)> {
        self.contents@
    }
}

impl ManifestStore {
    pub closed spec fn key_at(&self, i: int) -> (Seq<char>, Seq<char>) {
        (self.repos@[i]@, self.refs@[i]@)
    }

    /// The entries are the map: one per key, and nothing else.
    pub closed spec fn wf(&self) -> bool {
        &&& self.repos.len() == self.vals.len()
        &&& self.refs.len() == self.vals.len()
        &&& forall|i: int, j: int| 0 <= i < j < self.vals.len() ==> self.key_at(i) != self.key_at(j)
        &&& forall|i: int|
            0 <= i < self.vals.len() ==> #[trigger] self.contents@.contains_key(self.key_at(i))
                && self.contents@[self.key_at(i)] == record_view(self.vals@[i])
        &&& forall|k: (Seq<char>, Seq<char>)|
            #[trigger] self.contents@.contains_key(k) ==> exists|i: int|
                0 <= i < self.vals.len() && self.key_at(i) == k
    }

    /// An empty store.
    pub fn new() -> (r: ManifestStore)
        ensures
            r.wf(),
            r@ == Map::<(Seq<char>, Seq<char>), (Seq<char>, Seq<u8>)>::empty(),
    {
        ManifestStore {
            repos: Vec::new(),
            refs: Vec::new(),
            vals: Vec::new(),
            contents: Ghost(Map::empty()),
        }
    }

    fn find(&self, repo: &String, reference: &String) -> (r: Option<usize>)
        requires
            self.wf(),
        ensures
            match r {
                Some(i) => i < self.vals.len() && self.key_at(i as int) == (repo@, reference@),
                None => !self@.contains_key((repo@, reference@)),
            },
    {
        let mut i: usize = 0;
        while i < self.vals.len()
            invariant
                self.wf(),
                i <= self.vals.len(),
                forall|j: int| 0 <= j < i ==> self.key_at(j) != (repo@, reference@),
            decreases self.vals.len() - i,
        {
            if self.repos[i] == *repo && self.refs[i] == *reference {
                return Some(i);
            }
            i = i + 1;
        }
        None
    }

    /// Whether a manifest is stored under `reference` in `repo`.
    pub fn contains(&self, repo: &String, reference: &String) -> (r: bool)
        requires
            self.wf(),
        ensures
            r == self@.contains_key((repo@, reference@)),
    {
        self.find(repo, reference).is_some()
    }

    /// The manifest stored under `reference` in `repo`, if any.
    pub fn get(&self, repo: &String, reference: &String) -> (r: Option<Manifest>)
        requires
            self.wf(),
        ensures
            match r {
                Some(m) => self@.contains_key((repo@, reference@)) && record_view(m) == self@[(repo@, reference@)],
                None => !self@.contains_key((repo@, reference@)),
            },
    {
        match self.find(repo, reference) {
            Some(i) => {
                proof {
                    assert(self.contents@.contains_key(self.key_at(i as int)));
                }
                Some(self.vals[i].share())
            },
            None => None,
        }
    }

    /// Stores `m` under `reference` in `repo`, replacing what was there.
    pub fn put(&mut self, repo: String, reference: String, m: Manifest)
        requires
            old(self).wf(),
        ensures
            final(self).wf(),
            final(self)@ == old(self)@.insert((repo@, reference@), record_view(m)),
    {
        let ghost k = (repo@, reference@);
        let ghost v = record_view(m);
        match self.find(&repo, &reference) {
            Some(i) => {
                self.vals.set(i, m);
                self.contents = Ghost(self.contents@.insert(k, v));
                proof {
                    assert forall|a: int, b: int| 0 <= a < b < self.vals.len() implies self.key_at(a) != self.key_at(b) by {
                        assert(self.key_at(a) == old(self).key_at(a));
                        assert(self.key_at(b) == old(self).key_at(b));
                    }
                    assert forall|kk: (Seq<char>, Seq<char>)| #[trigger] self.contents@.contains_key(kk) implies exists|j: int|
                        0 <= j < self.vals.len() && self.key_at(j) == kk by {
                        if kk != k {
                            assert(old(self).contents@.contains_key(kk));
                            let j = choose|j: int| 0 <= j < old(self).vals.len() && old(self).key_at(j) == kk;
                            assert(self.key_at(j) == kk);
                        } else {
                            assert(self.key_at(i as int) == kk);
                        }
                    }
                    assert forall|a: int| 0 <= a < self.vals.len() implies #[trigger] self.contents@.contains_key(self.key_at(a))
                        && self.contents@[self.key_at(a)] == record_view(self.vals@[a]) by {
                        if a != i {
                            assert(old(self).contents@.contains_key(old(self).key_at(a)));
                        }
                    }
                }
            },
            None => {
                self.repos.push(repo);
                self.refs.push(reference);
                self.vals.push(m);
                self.contents = Ghost(self.contents@.insert(k, v));
                proof {
                    let n = self.vals.len() - 1;
                    assert(self.key_at(n as int) == k);
                    assert forall|a: int, b: int| 0 <= a < b < self.vals.len() implies self.key_at(a) != self.key_at(b) by {
                        if b < n {
                            assert(self.key_at(a) == old(self).key_at(a));
                            assert(self.key_at(b) == old(self).key_at(b));
                        } else {
                            assert(self.key_at(a) == old(self).key_at(a));
                            assert(old(self).contents@.contains_key(old(self).key_at(a)));
                        }
                    }
                    assert forall|kk: (Seq<char>, Seq<char>)| #[trigger] self.contents@.contains_key(kk) implies exists|j: int|
                        0 <= j < self.vals.len() && self.key_at(j) == kk by {
                        if kk != k {
                            assert(old(self).contents@.contains_key(kk));
                            let j = choose|j: int| 0 <= j < old(self).vals.len() && old(self).key_at(j) == kk;
                            assert(self.key_at(j) == kk);
                        }
                    }
                    assert forall|a: int| 0 <= a < self.vals.len() implies #[trigger] self.contents@.contains_key(self.key_at(a))
                        && self.contents@[self.key_at(a)] == record_view(self.vals@[a]) by {
                        if a < n {
                            assert(self.key_at(a) == old(self).key_at(a));
                            assert(old(self).contents@.contains_key(old(self).key_at(a)));
                        }
                    }
                }
            },
        }
    }
}

/// Creates the manifest store, empty.
pub fn new_manifest_store() -> (r: ManifestStore)
    ensures
        r.wf(),
        r@ == Map::<(Seq<char>, Seq<char>), (Seq<char>, Seq<u8>)>::empty(),
{
    ManifestStore::new()
}

} // verus!
