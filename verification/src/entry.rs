//! Where a cached environment lives: the entry that its two digests address.

use vstd::prelude::*;
use vstd::string::StringExecFns;

use crate::digest::is_digest;

verus! {

/// A namespace of the cache.
#[derive(Clone, Copy, Debug, PartialEq, Eq, Structural)]
pub enum CacheBucket {
    /// Environments that were built for a resolution and are kept for reuse.
    Environments,
}

/// The entry of a cached environment: a bucket and the two digests that
/// address the environment in it.
#[derive(Clone, Debug, PartialEq, Eq)]
pub struct CacheEntry {
    bucket: CacheBucket,
    interpreter: String,
    resolution: String,
}

/// What a cache entry is: the bucket and the two digests as text.
pub struct CacheKey {
    pub bucket: CacheBucket,
    pub interpreter: Seq<char>,
    pub resolution: Seq<char>,
}

impl View for CacheEntry {
    type V = CacheKey;

    closed spec fn view(&self) -> CacheKey {
        CacheKey {
            bucket: self.bucket,
            interpreter: self.interpreter@,
            resolution: self.resolution@,
        }
    }
}

/// The key of the environment that belongs to an interpreter digest and a
/// resolution digest.
pub open spec fn environment_key(interpreter: Seq<char>, resolution: Seq<char>) -> CacheKey {
    CacheKey { bucket: CacheBucket::Environments, interpreter, resolution }
}

/// The logical path of a key: the bucket, then the interpreter digest, then
/// the resolution digest, separated by slashes.
pub open spec fn logical_path_of(key: CacheKey) -> Seq<char> {
    "Environments/"@ + key.interpreter + "/"@ + key.resolution
}

/// A key whose two digests have the shape of digests.
pub open spec fn key_is_well_formed(key: CacheKey) -> bool {
    is_digest(key.interpreter) && is_digest(key.resolution)
}

impl CacheBucket {
    /// The bucket's name.
    pub fn name(self) -> (name: &'static str)
        ensures
            name@ == "Environments"@,
    {
        match self {
            CacheBucket::Environments => "Environments",
        }
    }
}

impl CacheEntry {
    /// The entry of the environment that belongs to an interpreter digest and
    /// a resolution digest. It is the same entry whenever the digests are the
    /// same, and another one whenever they are not.
    pub fn new(interpreter_digest: String, resolution_digest: String) -> (entry: CacheEntry)
        ensures
            entry@ == environment_key(interpreter_digest@, resolution_digest@),
    {
        CacheEntry {
            bucket: CacheBucket::Environments,
            interpreter: interpreter_digest,
            resolution: resolution_digest,
        }
    }

    /// The bucket that holds the entry.
    pub fn bucket(&self) -> (bucket: CacheBucket)
        ensures
            bucket == self@.bucket,
    {
        self.bucket
    }

    /// The digest of the interpreter.
    pub fn interpreter_digest(&self) -> (digest: &str)
        ensures
            digest@ == self@.interpreter,
    {
        self.interpreter.as_str()
    }

    /// The digest of the resolution.
    pub fn resolution_digest(&self) -> (digest: &str)
        ensures
            digest@ == self@.resolution,
    {
        self.resolution.as_str()
    }

    /// The entry's logical path in the cache.
    pub fn logical_path(&self) -> (path: String)
        ensures
            path@ == logical_path_of(self@),
    {
        let mut path = String::from_str("Environments/");
        path.append(self.interpreter.as_str());
        path.append("/");
        path.append(self.resolution.as_str());
        path
    }

    /// A copy of the entry.
    pub fn duplicate(&self) -> (entry: CacheEntry)
        ensures
            entry@ == self@,
    {
        CacheEntry {
            bucket: self.bucket,
            interpreter: self.interpreter.clone(),
            resolution: self.resolution.clone(),
        }
    }
}

/// Two pairs of digests address the same entry exactly when they are the
/// same pair.
pub proof fn lemma_entry_tells_pairs_apart(
    interpreter_a: Seq<char>,
    resolution_a: Seq<char>,
    interpreter_b: Seq<char>,
    resolution_b: Seq<char>,
)
    ensures
        environment_key(interpreter_a, resolution_a) == environment_key(interpreter_b, resolution_b)
            <==> (interpreter_a == interpreter_b && resolution_a == resolution_b),
{
}

/// Two well-formed keys have the same logical path exactly when they are
/// the same key: no two environments share a place in the cache.
pub proof fn lemma_logical_path_tells_keys_apart(a: CacheKey, b: CacheKey)
    requires
        key_is_well_formed(a),
        key_is_well_formed(b),
    ensures
        logical_path_of(a) == logical_path_of(b) <==> a == b,
{
    reveal_strlit("Environments/");
    reveal_strlit("/");
    let pa = logical_path_of(a);
    let pb = logical_path_of(b);
    if pa == pb {
        assert(a.interpreter =~= pa.subrange(13, 29));
        assert(b.interpreter =~= pb.subrange(13, 29));
        assert(a.resolution =~= pa.subrange(30, 46));
        assert(b.resolution =~= pb.subrange(30, 46));
        assert(a.bucket == b.bucket);
    }
}

} // verus!
