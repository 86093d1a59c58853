//! Get-or-create caches: each key gets one entry, created on its first
//! request and handed out unchanged afterwards.
use vstd::prelude::*;
use crate::pipeline::NormalizePassPipelineKey;

verus! {

/// The position of `key` among the cached keys, if it is there.
pub open spec fn cached_index(keys: Seq<NormalizePassPipelineKey>, key: NormalizePassPipelineKey) -> Option<int> {
    if exists|i: int| 0 <= i < keys.len() && keys[i] == key {
        Some(choose|i: int| 0 <= i < keys.len() && keys[i] == key)
    } else {
        None
    }
}

/// The answer to a pipeline request: the identity of the variant, and
/// whether it is new and must be compiled now.
#[derive(Clone, Copy, Debug, PartialEq, Eq, Structural)]
pub struct PipelineRequest {
    pub id: usize,
    pub compile: bool,
}

/// The keys and identities that a request leaves in the cache.
pub open spec fn keys_after_request(
    keys: Seq<NormalizePassPipelineKey>,
    key: NormalizePassPipelineKey,
) -> Seq<NormalizePassPipelineKey> {
    if cached_index(keys, key).is_some() {
        keys
    } else {
        keys.push(key)
    }
}

/// The answer to a request for `key` on a cache holding `keys`.
pub open spec fn request_answer(
    keys: Seq<NormalizePassPipelineKey>,
    key: NormalizePassPipelineKey,
) -> PipelineRequest {
    match cached_index(keys, key) {
        Some(i) => PipelineRequest { id: i as usize, compile: false },
        None => PipelineRequest { id: keys.len() as usize, compile: true },
    }
}

/// The cache of compiled normalize pipeline variants. The variant for the
/// key at position `i` has identity `i`.
pub struct NormalizePipelineCache {
    keys: Vec<NormalizePassPipelineKey>,
}

impl NormalizePipelineCache {
    pub closed spec fn view(&self) -> Seq<NormalizePassPipelineKey> {
        self.keys@
    }

    /// Every key is cached once.
    pub open spec fn wf(&self) -> bool {
        self.view().no_duplicates()
    }

    pub fn new() -> (r: Self)
        ensures
            r.wf(),
            r.view() == Seq::<NormalizePassPipelineKey>::empty(),
    {
        NormalizePipelineCache { keys: Vec::new() }
    }

    /// The number of cached variants.
    pub fn len(&self) -> (r: usize)
        ensures
            r == self.view().len(),
    {
        self.keys.len()
    }

    /// The identity of the variant cached for `key`, if any.
    pub fn get(&self, key: &NormalizePassPipelineKey) -> (r: Option<usize>)
        requires
            self.wf(),
        ensures
            r == (match cached_index(self.view(), *key) {
                Some(i) => Some(i as usize),
                None => None::<usize>,
            }),
    {
        let mut i: usize = 0;
        while i < self.keys.len()
            invariant
                self.wf(),
                i <= self.keys@.len(),
                forall|j: int| 0 <= j < i ==> self.keys@[j] != *key,
            decreases self.keys@.len() - i,
        {
            if self.keys[i] == *key {
                proof {
                    lemma_cached_index_unique(self.keys@, *key, i as int);
                }
                return Some(i);
            }
            i = i + 1;
        }
        None
    }

    /// Requests the variant for `key`: a cached key answers its identity;
    /// a new key is inserted, with a new identity, to be compiled.
    pub fn request(&mut self, key: NormalizePassPipelineKey) -> (r: PipelineRequest)
        requires
            old(self).wf(),
        ensures
            final(self).wf(),
            r == request_answer(old(self).view(), key),
            final(self).view() == keys_after_request(old(self).view(), key),
    {
        match self.get(&key) {
            Some(id) => PipelineRequest { id, compile: false },
            None => {
                let id = self.keys.len();
                proof {
                    assert forall|a: int, b: int|
                        0 <= a < b < self.keys@.push(key).len() implies self.keys@.push(key)[a]
                            != self.keys@.push(key)[b] by {
                        if b == self.keys@.len() {
                            assert(self.keys@[a] != key);
                        }
                    }
                }
                self.keys.push(key);
                PipelineRequest { id, compile: true }
            }
        }
    }
}

proof fn lemma_cached_index_unique(keys: Seq<NormalizePassPipelineKey>, key: NormalizePassPipelineKey, i: int)
    requires
        keys.no_duplicates(),
        0 <= i < keys.len(),
        keys[i] == key,
    ensures
        cached_index(keys, key) == Some(i),
{
    let j = choose|j: int| 0 <= j < keys.len() && keys[j] == key;
    assert(keys[j] == keys[i]);
}

/// Requesting a variant twice with the same key compiles it at most once:
/// the second request answers the identity of the first, with nothing to
/// compile, and leaves the cache as it was.
pub proof fn lemma_request_twice_same_variant(c: NormalizePipelineCache, key: NormalizePassPipelineKey)
    requires
        c.wf(),
    ensures
        request_answer(keys_after_request(c.view(), key), key)
            == (PipelineRequest { id: request_answer(c.view(), key).id, compile: false }),
        keys_after_request(keys_after_request(c.view(), key), key) == keys_after_request(c.view(), key),
{
    let keys = c.view();
    match cached_index(keys, key) {
        Some(i) => {
            let i = choose|i: int| 0 <= i < keys.len() && keys[i] == key;
            lemma_cached_index_unique(keys, key, i);
        },
        None => {
            let after = keys.push(key);
            assert(after[keys.len() as int] == key);
            assert(after.no_duplicates()) by {
                assert forall|a: int, b: int| 0 <= a < b < after.len() implies after[a] != after[b] by {
                    if b == keys.len() {
                        assert(after[a] == keys[a]);
                    }
                }
            }
            lemma_cached_index_unique(after, key, keys.len() as int);
        },
    }
}

/// Distinct keys never share a variant.
pub proof fn lemma_distinct_keys_distinct_ids(
    c: NormalizePipelineCache,
    k1: NormalizePassPipelineKey,
    k2: NormalizePassPipelineKey,
)
    requires
        c.wf(),
        k1 != k2,
        cached_index(c.view(), k1).is_some(),
        cached_index(c.view(), k2).is_some(),
    ensures
        cached_index(c.view(), k1) != cached_index(c.view(), k2),
{
    let keys = c.view();
    let i = choose|i: int| 0 <= i < keys.len() && keys[i] == k1;
    let j = choose|j: int| 0 <= j < keys.len() && keys[j] == k2;
    lemma_cached_index_unique(keys, k1, i);
    lemma_cached_index_unique(keys, k2, j);
}

} // verus!
