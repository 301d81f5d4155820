//! Hash tree roots: the chunks of a value are laid out here, and `ssz_rs`
//! hashes them into a tree.

use vstd::prelude::*;
use crate::errors::Error;
use crate::hash::{sha256, sha256_digest};
use crate::types::H256;
use ssz_rs::MerkleizationError;

verus! {

/// The number of bytes of a chunk, the unit that trees are built of.
pub const BYTES_PER_CHUNK: usize = 32;

/// The error of `ssz_rs::__internal::merkleize`, which is carried through as it comes.
#[verifier::external_type_specification]
#[verifier::external_body]
pub struct ExMerkleizationError(MerkleizationError);

/// The root of the tree that `ssz_rs` builds over `chunks`, a whole number of
/// chunks, padded with zero chunks to the next power of two of their number,
/// or of `limit` where one is given; `None` where it reports an error.
pub uninterp spec fn ssz_merkleize(chunks: Seq<u8>, limit: Option<usize>) -> Option<Seq<u8>>;

/// Whether `limit` admits `chunks`: there is no limit, or the chunks are no
/// more than it allows.
pub open spec fn within_limit(chunks: Seq<u8>, limit: Option<usize>) -> bool {
    limit matches Some(l) ==> chunks.len() / 32 <= l
}

/// Calls `ssz_rs::__internal::merkleize`, the call that the crate's derived
/// `hash_tree_root` makes for a container (without a limit) and that its
/// lists make (with the limit of their type). Its outcome is named
/// `ssz_merkleize(chunks, limit)`: the root where it succeeds, nothing where
/// it fails. It fails on one input only, more chunks than the limit. The
/// input is a whole number of chunks, and the limit is one of which the next
/// power of two exists.
#[verifier::external_body]
fn merkleize(chunks: &[u8], limit: Option<usize>) -> (res: Result<[u8; 32], MerkleizationError>)
    requires
        chunks@.len() % 32 == 0,
        limit matches Some(l) ==> l <= usize::MAX / 2,
    ensures
        res is Ok <==> ssz_merkleize(chunks@, limit) is Some,
        res matches Ok(root) ==> ssz_merkleize(chunks@, limit) == Some(root@),
        res is Ok <==> within_limit(chunks@, limit),
{
    let node = ssz_rs::__internal::merkleize(chunks, limit)?;
    let mut root = [0u8; 32];
    root.copy_from_slice(node.as_ref());
    Ok(root)
}

/// `n` zero bytes.
pub open spec fn zeros(n: nat) -> Seq<u8> {
    Seq::new(n, |i: int| 0u8)
}

/// The first `n` bytes of `x` in little-endian order.
pub open spec fn le_bytes(x: nat, n: nat) -> Seq<u8>
    decreases n,
{
    if n == 0 {
        Seq::empty()
    } else {
        seq![(x % 256) as u8] + le_bytes(x / 256, (n - 1) as nat)
    }
}

/// The chunk of a 64-bit integer: its eight little-endian bytes, then zeros.
pub open spec fn u64_chunk(x: u64) -> Seq<u8> {
    le_bytes(x as nat, 8) + zeros(24)
}

/// The chunk of at most 32 bytes: the bytes, then zeros.
pub open spec fn padded_chunk(bytes: Seq<u8>) -> Seq<u8> {
    bytes + zeros((32 - bytes.len()) as nat)
}

/// The first `n` little-endian bytes are `n` bytes.
pub proof fn lemma_le_bytes_len(x: nat, n: nat)
    ensures
        le_bytes(x, n).len() == n,
    decreases n,
{
    if n > 0 {
        lemma_le_bytes_len(x / 256, (n - 1) as nat);
    }
}

/// Appends the bytes of a slice to a buffer.
pub fn append_bytes(buffer: &mut Vec<u8>, bytes: &[u8])
    ensures
        final(buffer)@ == old(buffer)@ + bytes@,
{
    let mut i: usize = 0;
    while i < bytes.len()
        invariant
            i <= bytes.len(),
            buffer@ == old(buffer)@ + bytes@.subrange(0, i as int),
        decreases bytes.len() - i,
    {
        buffer.push(bytes[i]);
        i += 1;
    }
    assert(bytes@.subrange(0, bytes@.len() as int) == bytes@);
}

/// Appends `n` zero bytes to a buffer.
pub fn append_zeros(buffer: &mut Vec<u8>, n: usize)
    ensures
        final(buffer)@ == old(buffer)@ + zeros(n as nat),
{
    let mut i: usize = 0;
    while i < n
        invariant
            i <= n,
            buffer@ == old(buffer)@ + zeros(i as nat),
        decreases n - i,
    {
        buffer.push(0u8);
        i += 1;
        assert(buffer@ == old(buffer)@ + zeros(i as nat));
    }
}

/// Appends the chunk of a 64-bit integer to a buffer.
pub fn append_u64_chunk(buffer: &mut Vec<u8>, x: u64)
    ensures
        final(buffer)@ == old(buffer)@ + u64_chunk(x),
{
    let mut rest: u64 = x;
    let mut i: usize = 0;
    let ghost start = buffer@;
    while i < 8
        invariant
            i <= 8,
            start == old(buffer)@,
            buffer@ + le_bytes(rest as nat, (8 - i) as nat) == start + le_bytes(x as nat, 8),
        decreases 8 - i,
    {
        proof {
            let tail = le_bytes((rest / 256) as nat, (8 - i - 1) as nat);
            assert(le_bytes(rest as nat, (8 - i) as nat) == seq![(rest % 256) as u8] + tail);
            assert(buffer@.push((rest % 256) as u8) + tail == buffer@ + (seq![
                (rest % 256) as u8,
            ] + tail));
        }
        buffer.push((rest % 256) as u8);
        rest = rest / 256;
        i += 1;
    }
    proof {
        assert(le_bytes(rest as nat, 0) == Seq::<u8>::empty());
        assert(buffer@ + Seq::<u8>::empty() == buffer@);
    }
    append_zeros(buffer, 24);
    assert(buffer@ == start + (le_bytes(x as nat, 8) + zeros(24)));
}

/// Appends a 32-byte root to a buffer as one chunk.
pub fn append_root(buffer: &mut Vec<u8>, root: &H256)
    ensures
        final(buffer)@ == old(buffer)@ + root.0@,
{
    append_bytes(buffer, root.0.as_slice());
}

/// Appends at most 32 bytes to a buffer as one chunk, padded with zeros.
pub fn append_padded_chunk(buffer: &mut Vec<u8>, bytes: &[u8])
    requires
        bytes@.len() <= 32,
    ensures
        final(buffer)@ == old(buffer)@ + padded_chunk(bytes@),
{
    append_bytes(buffer, bytes);
    append_zeros(buffer, 32 - bytes.len());
    assert(buffer@ == old(buffer)@ + (bytes@ + zeros((32 - bytes@.len()) as nat)));
}

/// The bytes of a byte string, then zeros up to a whole number of chunks.
pub open spec fn packed_bytes(bytes: Seq<u8>) -> Seq<u8> {
    bytes + zeros(((32 - bytes.len() % 32) % 32) as nat)
}

/// The root of a byte list of at most `32 * limit` bytes: the tree over its
/// packed bytes, hashed with the chunk of its length.
pub open spec fn byte_list_root(bytes: Seq<u8>, limit: usize) -> Option<Seq<u8>> {
    match ssz_merkleize(packed_bytes(bytes), Some(limit)) {
        Some(root) => Some(sha256(root + u64_chunk(bytes.len() as u64))),
        None => None,
    }
}

/// Appends a byte string to a buffer, then zeros up to a whole number of chunks.
pub fn append_packed_bytes(buffer: &mut Vec<u8>, bytes: &[u8])
    ensures
        final(buffer)@ == old(buffer)@ + packed_bytes(bytes@),
{
    append_bytes(buffer, bytes);
    let used: usize = bytes.len() % 32;
    append_zeros(buffer, (32 - used) % 32);
    assert(buffer@ == old(buffer)@ + (bytes@ + zeros(((32 - bytes@.len() % 32) % 32) as nat)));
}

/// Hashes a whole number of chunks into the root of their tree, which has
/// room for `limit` chunks where a limit is given.
pub fn merkle_root(chunks: &Vec<u8>, limit: Option<usize>) -> (res: Result<H256, Error>)
    requires
        chunks@.len() % 32 == 0,
        limit matches Some(l) ==> l <= usize::MAX / 2,
    ensures
        match ssz_merkleize(chunks@, limit) {
            Some(root) => res matches Ok(h) && h.0@ == root,
            None => res matches Err(Error::MerkleizationError(_)),
        },
        res is Ok <==> within_limit(chunks@, limit),
{
    match merkleize(chunks.as_slice(), limit) {
        Ok(root) => Ok(H256(root)),
        Err(e) => Err(Error::from(e)),
    }
}

/// The root of a byte list that may hold `32 * limit` bytes.
pub fn hash_byte_list(bytes: &Vec<u8>, limit: usize) -> (res: Result<H256, Error>)
    requires
        limit <= usize::MAX / 2,
    ensures
        match byte_list_root(bytes@, limit) {
            Some(root) => res matches Ok(h) && h.0@ == root,
            None => res matches Err(Error::MerkleizationError(_)),
        },
        res is Ok <==> bytes@.len() <= 32 * limit,
{
    let mut chunks: Vec<u8> = Vec::new();
    append_packed_bytes(&mut chunks, bytes.as_slice());
    assert(chunks@ == packed_bytes(bytes@));
    let root = merkle_root(&chunks, Some(limit))?;
    let mut pair: Vec<u8> = Vec::new();
    append_root(&mut pair, &root);
    append_u64_chunk(&mut pair, bytes.len() as u64);
    assert(pair@ == root.0@ + u64_chunk(bytes@.len() as u64));
    Ok(H256(sha256_digest(pair.as_slice())))
}

} // verus!
