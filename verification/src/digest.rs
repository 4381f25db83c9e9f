//! Hashing: the digest primitive, pair and Merkle-root hashing, and the chunked hash used for
//! large payloads.

use crate::primitives::Digest;
use vstd::bytes::{spec_u64_to_le_bytes, u64_to_le_bytes};
use vstd::prelude::*;

verus! {

/// Payloads of more than this many bytes are hashed chunk by chunk.
pub const CHUNK_SIZE_BYTES: usize = 8_388_608;

/// The BLAKE2b digest of `data` with a 32-byte output.
pub uninterp spec fn blake2b_256(data: Seq<u8>) -> Seq<u8>;

/// Calls `blake2::Blake2b<U32>` (`Digest::new`, `update`, `finalize`) on `data`.
///
/// Trusted: the 32 bytes returned are the BLAKE2b-256 digest of exactly the bytes of `data`,
/// which depends on nothing else.
#[verifier::external_body]
fn blake2b(data: &[u8]) -> (out: Digest)
    ensures
        out@ == blake2b_256(data@),
{
    let mut hasher = <blake2::Blake2b<blake2::digest::consts::U32> as blake2::Digest>::new();
    blake2::Digest::update(&mut hasher, data);
    Digest { bytes: blake2::Digest::finalize(hasher).into() }
}

/// The digest of two byte strings hashed one after the other.
pub open spec fn spec_hash_pair(left: Seq<u8>, right: Seq<u8>) -> Seq<u8> {
    blake2b_256(left + right)
}

/// The digest that seals a Merkle tree: the number of leaves, then the raw root.
pub open spec fn spec_hash_merkle_root(leaf_count: u64, raw_root: Seq<u8>) -> Seq<u8> {
    blake2b_256(spec_u64_to_le_bytes(leaf_count) + raw_root)
}

/// The largest power of two that is strictly less than `n`, for `n >= 2`.
pub open spec fn spec_split_point(n: nat) -> nat
    decreases n,
{
    if n <= 2 {
        1
    } else {
        let half = spec_split_point(((n + 1) / 2) as nat);
        2 * half
    }
}

/// The raw root of the tree over `leaves`: a single leaf is its own root; otherwise the leaves
/// are split at the largest power of two below their number and the two roots are hashed as a
/// pair.
pub open spec fn spec_raw_root(leaves: Seq<Seq<u8>>) -> Seq<u8>
    decreases leaves.len(),
{
    if leaves.len() == 0 {
        Seq::empty()
    } else if leaves.len() == 1 {
        leaves[0]
    } else {
        let k = spec_split_point(leaves.len()) as int;
        if 0 < k < leaves.len() {
            spec_hash_pair(
                spec_raw_root(leaves.subrange(0, k)),
                spec_raw_root(leaves.subrange(k, leaves.len() as int)),
            )
        } else {
            Seq::empty()
        }
    }
}

/// The value that stands for the root of a tree without leaves.
pub open spec fn spec_sentinel_merkle_tree() -> Seq<u8> {
    Seq::new(32, |i: int| 2u8)
}

/// The Merkle root over `leaves`.
pub open spec fn spec_hash_merkle_tree(leaves: Seq<Seq<u8>>) -> Seq<u8> {
    if leaves.len() == 0 {
        spec_sentinel_merkle_tree()
    } else {
        spec_hash_merkle_root(leaves.len() as u64, spec_raw_root(leaves))
    }
}

/// The number of chunks that `len` bytes fall into.
pub open spec fn spec_chunk_count(len: nat) -> nat {
    ((len + CHUNK_SIZE_BYTES - 1) / (CHUNK_SIZE_BYTES as int)) as nat
}

/// The `i`-th chunk of `bytes`.
pub open spec fn spec_chunk(bytes: Seq<u8>, i: int) -> Seq<u8> {
    let start = i * CHUNK_SIZE_BYTES;
    let end = if start + CHUNK_SIZE_BYTES < bytes.len() {
        start + CHUNK_SIZE_BYTES
    } else {
        bytes.len() as int
    };
    bytes.subrange(start, end)
}

/// The digests of the chunks of `bytes`, in order.
pub open spec fn spec_chunk_digests(bytes: Seq<u8>) -> Seq<Seq<u8>> {
    Seq::new(spec_chunk_count(bytes.len()), |i: int| blake2b_256(spec_chunk(bytes, i)))
}

/// The digest of `bytes`: plain when they fit one chunk, else the Merkle root over the digests
/// of their chunks.
pub open spec fn spec_hash_into_chunks_if_necessary(bytes: Seq<u8>) -> Seq<u8> {
    if bytes.len() <= CHUNK_SIZE_BYTES {
        blake2b_256(bytes)
    } else {
        spec_hash_merkle_tree(spec_chunk_digests(bytes))
    }
}

/// The views of `leaves`.
pub open spec fn leaf_views(leaves: Seq<Digest>) -> Seq<Seq<u8>> {
    leaves.map_values(|d: Digest| d@)
}

/// The split point lies strictly inside `2..=n` and is never less than half of `n`.
pub proof fn lemma_split_point_bounds(n: nat)
    requires
        n >= 2,
    ensures
        0 < spec_split_point(n) < n,
        2 * spec_split_point(n) >= n,
    decreases n,
{
    if n > 2 {
        lemma_split_point_bounds(((n + 1) / 2) as nat);
    }
}

/// The largest power of two strictly below `n`.
pub fn split_point(n: usize) -> (k: usize)
    requires
        n >= 2,
    ensures
        k == spec_split_point(n as nat),
        0 < k < n,
    decreases n,
{
    proof {
        lemma_split_point_bounds(n as nat);
    }
    if n <= 2 {
        1
    } else {
        let half: usize = split_point(n / 2 + n % 2);
        proof {
            lemma_split_point_bounds(((n + 1) / 2) as nat);
        }
        2 * half
    }
}

impl Digest {
    /// The digest of `data`.
    pub fn hash(data: &[u8]) -> (d: Digest)
        ensures
            d@ == blake2b_256(data@),
    {
        blake2b(data)
    }

    /// The digest of `left` followed by `right`.
    pub fn hash_pair(left: &Digest, right: &Digest) -> (d: Digest)
        ensures
            d@ == spec_hash_pair(left@, right@),
    {
        let mut buffer: Vec<u8> = left.to_vec();
        let mut tail: Vec<u8> = right.to_vec();
        buffer.append(&mut tail);
        blake2b(buffer.as_slice())
    }

    /// Seals a raw root with the number of leaves below it.
    pub fn hash_merkle_root(leaf_count: u64, raw_root: &Digest) -> (d: Digest)
        ensures
            d@ == spec_hash_merkle_root(leaf_count, raw_root@),
    {
        let mut buffer: Vec<u8> = u64_to_le_bytes(leaf_count);
        let mut tail: Vec<u8> = raw_root.to_vec();
        buffer.append(&mut tail);
        blake2b(buffer.as_slice())
    }

    /// The value that stands for the root of a tree without leaves.
    pub fn sentinel_merkle_tree() -> (d: Digest)
        ensures
            d@ == spec_sentinel_merkle_tree(),
    {
        let d = Digest { bytes: [2u8; 32] };
        assert(d@ =~= spec_sentinel_merkle_tree());
        d
    }

    /// The Merkle root over `leaves`.
    pub fn hash_merkle_tree(leaves: &Vec<Digest>) -> (d: Digest)
        ensures
            d@ == spec_hash_merkle_tree(leaf_views(leaves@)),
    {
        if leaves.len() == 0 {
            Digest::sentinel_merkle_tree()
        } else {
            let raw: Digest = raw_root(leaves, 0, leaves.len());
            assert(leaves@.subrange(0, leaves@.len() as int) =~= leaves@);
            Digest::hash_merkle_root(leaves.len() as u64, &raw)
        }
    }

    /// The digest of `bytes`, chunked where they exceed [`CHUNK_SIZE_BYTES`].
    pub fn hash_into_chunks_if_necessary(bytes: &[u8]) -> (d: Digest)
        ensures
            d@ == spec_hash_into_chunks_if_necessary(bytes@),
    {
        if bytes.len() <= CHUNK_SIZE_BYTES {
            blake2b(bytes)
        } else {
            let digests: Vec<Digest> = chunk_digests(bytes);
            Digest::hash_merkle_tree(&digests)
        }
    }
}

/// The raw root over `leaves[lo..hi]`.
fn raw_root(leaves: &Vec<Digest>, lo: usize, hi: usize) -> (d: Digest)
    requires
        lo < hi <= leaves.len(),
    ensures
        d@ == spec_raw_root(leaf_views(leaves@.subrange(lo as int, hi as int))),
    decreases hi - lo,
{
    let ghost part = leaves@.subrange(lo as int, hi as int);
    if hi - lo == 1 {
        leaves[lo]
    } else {
        let k: usize = split_point(hi - lo);
        let left: Digest = raw_root(leaves, lo, lo + k);
        let right: Digest = raw_root(leaves, lo + k, hi);
        proof {
            let views = leaf_views(part);
            assert(views.subrange(0, k as int) =~= leaf_views(
                leaves@.subrange(lo as int, lo + k),
            ));
            assert(views.subrange(k as int, views.len() as int) =~= leaf_views(
                leaves@.subrange(lo + k, hi as int),
            ));
        }
        Digest::hash_pair(&left, &right)
    }
}

/// The digests of the chunks of `bytes`, in order.
fn chunk_digests(bytes: &[u8]) -> (digests: Vec<Digest>)
    ensures
        leaf_views(digests@) == spec_chunk_digests(bytes@),
{
    let len: usize = bytes.len();
    let full: usize = len / CHUNK_SIZE_BYTES;
    let count: usize = if len % CHUNK_SIZE_BYTES == 0 {
        full
    } else {
        full + 1
    };
    assert(count == spec_chunk_count(len as nat));
    let mut digests: Vec<Digest> = Vec::new();
    let mut i: usize = 0;
    while i < count
        invariant
            len == bytes@.len(),
            count == spec_chunk_count(len as nat),
            i <= count,
            digests@.len() == i,
            forall|j: int|
                0 <= j < i ==> (#[trigger] digests@[j])@ == blake2b_256(spec_chunk(bytes@, j)),
        decreases count - i,
    {
        let start: usize = i * CHUNK_SIZE_BYTES;
        let end: usize = if len - start > CHUNK_SIZE_BYTES {
            start + CHUNK_SIZE_BYTES
        } else {
            len
        };
        let chunk: &[u8] = vstd::slice::slice_subrange(bytes, start, end);
        let d: Digest = blake2b(chunk);
        assert(chunk@ == spec_chunk(bytes@, i as int));
        digests.push(d);
        i = i + 1;
    }
    proof {
        assert(leaf_views(digests@) =~= spec_chunk_digests(bytes@));
    }
    digests
}

} // verus!
