//! SHA-256, as computed by the `sha2` crate.

use vstd::prelude::*;
use crate::types::H256;

verus! {

/// The SHA-256 digest of a byte string.
pub uninterp spec fn sha256(data: Seq<u8>) -> Seq<u8>;

/// Calls `sha2::Sha256::digest`: the 32 bytes returned are the SHA-256 digest
/// of `data`, which this library names `sha256(data)`.
#[verifier::external_body]
pub(crate) fn sha256_digest(data: &[u8]) -> (out: [u8; 32])
    ensures
        out@ == sha256(data@),
{
    <sha2::Sha256 as sha2::Digest>::digest(data).into()
}

/// The parent of two sibling nodes: the digest of `left` followed by `right`.
pub open spec fn hash_pair(left: H256, right: H256) -> Seq<u8> {
    sha256(left.0@ + right.0@)
}

/// Hashes two sibling nodes into their parent.
pub fn hash_nodes(left: &H256, right: &H256) -> (parent: H256)
    ensures
        parent.0@ == hash_pair(*left, *right),
{
    let mut buf: Vec<u8> = Vec::with_capacity(64);
    let mut i: usize = 0;
    while i < 32
        invariant
            i <= 32,
            buf@ == left.0@.subrange(0, i as int),
        decreases 32 - i,
    {
        buf.push(left.0[i]);
        i += 1;
    }
    let mut j: usize = 0;
    while j < 32
        invariant
            j <= 32,
            buf@ == left.0@ + right.0@.subrange(0, j as int),
        decreases 32 - j,
    {
        buf.push(right.0[j]);
        j += 1;
    }
    assert(buf@ == left.0@ + right.0@);
    H256(sha256_digest(buf.as_slice()))
}

} // verus!
