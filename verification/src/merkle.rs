//! Verification of Merkle branches addressed by generalized index.
//!
//! The root of a tree has generalized index 1; the children of node `g` are
//! `2g` (left) and `2g + 1` (right).

use vstd::prelude::*;
use crate::errors::MerkleError;
use crate::hash::{hash_nodes, sha256};
use crate::types::{clone_vec, H256, Root};

verus! {

/// The default limit on the length of a branch.
pub const MAX_MERKLE_DEPTH: u32 = 64;

/// Two to the power `n`.
pub open spec fn pow2(n: nat) -> nat
    decreases n,
{
    if n == 0 {
        1
    } else {
        2 * pow2((n - 1) as nat)
    }
}

/// The depth of node `g`: the number of edges between it and the root.
pub open spec fn spec_floor_log2(g: nat) -> nat
    decreases g,
{
    if g <= 1 {
        0
    } else {
        1 + spec_floor_log2(g / 2)
    }
}

/// The position of node `g` among the nodes of its depth, counted from the left.
pub open spec fn spec_subtree_index(g: nat) -> nat {
    (g - pow2(spec_floor_log2(g))) as nat
}

/// The parent of `value` and its `sibling`; `value` is the right child
/// exactly when `path` is odd.
pub open spec fn merkle_parent(value: Seq<u8>, sibling: H256, path: nat) -> Seq<u8> {
    if path % 2 == 0 {
        sha256(value + sibling.0@)
    } else {
        sha256(sibling.0@ + value)
    }
}

/// The value reached from `value` at node `path` by climbing one level for
/// each element of `branch`, which holds the siblings from the bottom up.
pub open spec fn merkle_climb(value: Seq<u8>, branch: Seq<H256>, path: nat) -> Seq<u8>
    decreases branch.len(),
{
    if branch.len() == 0 {
        value
    } else {
        merkle_climb(merkle_parent(value, branch[0], path), branch.drop_first(), path / 2)
    }
}

/// Whether `branch` proves that `leaf` is the node `gindex` of the tree with
/// the given root: the branch has one sibling per level and climbing from the
/// leaf ends at the root.
pub open spec fn branch_proves(
    leaf: Seq<u8>,
    branch: Seq<H256>,
    gindex: u64,
    root: Seq<u8>,
) -> bool {
    &&& gindex >= 1
    &&& branch.len() == spec_floor_log2(gindex as nat)
    &&& merkle_climb(leaf, branch, gindex as nat) == root
}

/// A power of two is at least one.
pub proof fn lemma_pow2_positive(n: nat)
    ensures
        pow2(n) >= 1,
    decreases n,
{
    if n > 0 {
        lemma_pow2_positive((n - 1) as nat);
    }
}

/// A node lies at or after the first node of its depth, and before the first
/// node of the next depth.
pub proof fn lemma_floor_log2_bounds(g: nat)
    requires
        g >= 1,
    ensures
        pow2(spec_floor_log2(g)) <= g < 2 * pow2(spec_floor_log2(g)),
    decreases g,
{
    if g >= 2 {
        lemma_floor_log2_bounds(g / 2);
    }
}

/// A parent is one level higher than its child, sits at half the child's
/// position, and the child is a right child exactly when its position is odd.
pub proof fn lemma_subtree_index_parent(g: nat)
    requires
        g >= 2,
    ensures
        spec_floor_log2(g) == spec_floor_log2(g / 2) + 1,
        spec_subtree_index(g) % 2 == g % 2,
        spec_subtree_index(g) / 2 == spec_subtree_index(g / 2),
{
    let q = g / 2;
    let d = spec_floor_log2(q);
    let p = pow2(d);
    lemma_floor_log2_bounds(q);
    assert(spec_floor_log2(g) == d + 1);
    assert(pow2(d + 1) == 2 * p);
    assert(spec_subtree_index(q) == q - p);
    let a: int = q - p;
    assert(spec_subtree_index(g) == 2 * a + g % 2);
}

/// Climbing by the position within the level visits the same parents as
/// climbing by the generalized index, as long as the branch stays below the
/// root.
pub proof fn lemma_climb_by_subtree_index(value: Seq<u8>, branch: Seq<H256>, g: nat)
    requires
        g >= 1,
        branch.len() <= spec_floor_log2(g),
    ensures
        merkle_climb(value, branch, spec_subtree_index(g)) == merkle_climb(value, branch, g),
    decreases branch.len(),
{
    if branch.len() > 0 {
        lemma_subtree_index_parent(g);
        lemma_climb_by_subtree_index(
            merkle_parent(value, branch[0], g),
            branch.drop_first(),
            g / 2,
        );
    }
}

proof fn lemma_floor_log2_below(g: nat, k: nat)
    requires
        k >= 1,
        g < pow2(k),
    ensures
        spec_floor_log2(g) < k,
    decreases g,
{
    if g >= 2 {
        assert(pow2(1) == 2) by {
            reveal_with_fuel(pow2, 2);
        }
        lemma_floor_log2_below(g / 2, (k - 1) as nat);
    }
}

proof fn lemma_floor_log2_u64(g: u64)
    ensures
        spec_floor_log2(g as nat) < 64,
{
    assert(pow2(64) == 0x1_0000_0000_0000_0000) by {
        reveal_with_fuel(pow2, 65);
    }
    lemma_floor_log2_below(g as nat, 64);
}

/// The depth of `gindex` and the generalized index of the first node of that depth.
fn depth_and_level_start(gindex: u64) -> (r: (u32, u64))
    requires
        gindex >= 1,
    ensures
        r.0 == spec_floor_log2(gindex as nat),
        r.1 == pow2(spec_floor_log2(gindex as nat)),
        r.0 < 64,
        r.1 <= gindex,
{
    let mut depth: u32 = 0;
    let mut start: u64 = 1;
    let mut rest: u64 = gindex;
    proof {
        lemma_floor_log2_u64(gindex);
    }
    while rest > 1
        invariant
            rest >= 1,
            start == pow2(depth as nat),
            start * rest <= gindex,
            depth + spec_floor_log2(rest as nat) == spec_floor_log2(gindex as nat),
            spec_floor_log2(gindex as nat) < 64,
        decreases rest,
    {
        assert(start * 2 <= start * rest) by (nonlinear_arith)
            requires
                rest >= 2,
        ;
        assert(start * 2 * (rest / 2) <= start * rest) by (nonlinear_arith)
            requires
                rest >= 2,
        ;
        start = start * 2;
        rest = rest / 2;
        depth = depth + 1;
    }
    assert(start * rest == start) by (nonlinear_arith)
        requires
            rest == 1,
    ;
    (depth, start)
}

/// The depth of the node with generalized index `gindex`.
pub fn floor_log2(gindex: u64) -> (depth: u32)
    requires
        gindex >= 1,
    ensures
        depth == spec_floor_log2(gindex as nat),
        depth < 64,
{
    depth_and_level_start(gindex).0
}

/// The position of the node `gindex` within its level.
pub fn get_subtree_index(gindex: u64) -> (index: u64)
    requires
        gindex >= 1,
    ensures
        index == spec_subtree_index(gindex as nat),
{
    let (_, start) = depth_and_level_start(gindex);
    gindex - start
}

/// Whether `error` is what the check of a branch reports. The first check
/// that fails decides: a generalized index of zero, a branch longer than the
/// limit, a branch whose length is not the depth of the index, and last a
/// recomputed root that differs from the expected one.
pub open spec fn branch_rejection(
    error: MerkleError,
    leaf: Seq<u8>,
    branch: Seq<H256>,
    gindex: u64,
    root: Root,
    max_depth: u32,
) -> bool {
    let index = spec_subtree_index(gindex as nat);
    let depth = spec_floor_log2(gindex as nat);
    if gindex == 0 {
        error matches MerkleError::InvalidGeneralIndex(g) && g == gindex
    } else if branch.len() > max_depth {
        error matches MerkleError::TooLongMerkleBranchLength(limit, l, b, i, r) && limit
            == max_depth && l.0@ == leaf && b@ == branch && i == index && r == root
    } else if branch.len() != depth {
        error matches MerkleError::InvalidMerkleBranchLength(d, l, b, i, r) && d == depth
            && l.0@ == leaf && b@ == branch && i == index && r == root
    } else {
        error matches MerkleError::InvalidMerkleBranch(l, b, i, expected, actual) && l.0@
            == leaf && b@ == branch && i == index && expected == root && actual.0@
            == merkle_climb(leaf, branch, gindex as nat) && actual != root
    }
}

/// Checks a Merkle branch against a root, with a limit on the branch length.
///
/// Succeeds exactly when the branch is no longer than `max_depth` and proves
/// the leaf at `gindex`; otherwise the error tells which check failed first.
pub fn is_valid_merkle_branch_with_max_depth(
    leaf: H256,
    branch: &Vec<H256>,
    gindex: u64,
    root: Root,
    max_depth: u32,
) -> (res: Result<(), MerkleError>)
    ensures
        res is Ok <==> branch@.len() <= max_depth && branch_proves(
            leaf.0@,
            branch@,
            gindex,
            root.0@,
        ),
        res matches Err(error) ==> branch_rejection(
            error,
            leaf.0@,
            branch@,
            gindex,
            root,
            max_depth,
        ),
{
    if gindex == 0 {
        return Err(MerkleError::InvalidGeneralIndex(gindex));
    }
    let (depth, start) = depth_and_level_start(gindex);
    let index: u64 = gindex - start;
    if branch.len() > max_depth as usize {
        return Err(
            MerkleError::TooLongMerkleBranchLength(
                max_depth,
                leaf,
                clone_vec(branch),
                index,
                root,
            ),
        );
    }
    if branch.len() != depth as usize {
        return Err(
            MerkleError::InvalidMerkleBranchLength(depth, leaf, clone_vec(branch), index, root),
        );
    }
    let mut value: H256 = leaf;
    let mut path: u64 = index;
    let mut i: usize = 0;
    proof {
        lemma_climb_by_subtree_index(leaf.0@, branch@, gindex as nat);
        assert(branch@.skip(0) == branch@);
    }
    while i < branch.len()
        invariant
            i <= branch.len(),
            merkle_climb(value.0@, branch@.skip(i as int), path as nat) == merkle_climb(
                leaf.0@,
                branch@,
                gindex as nat,
            ),
        decreases branch.len() - i,
    {
        let sibling: H256 = branch[i];
        proof {
            assert(branch@.skip(i as int)[0] == sibling);
            assert(branch@.skip(i as int).drop_first() == branch@.skip(i + 1));
        }
        value = if path % 2 == 0 {
            hash_nodes(&value, &sibling)
        } else {
            hash_nodes(&sibling, &value)
        };
        path = path / 2;
        i += 1;
    }
    if value.equals(&root) {
        Ok(())
    } else {
        Err(MerkleError::InvalidMerkleBranch(leaf, clone_vec(branch), index, root, value))
    }
}

/// Checks a Merkle branch against a root, with the default limit on the
/// branch length.
///
/// Succeeds exactly when the branch proves the leaf at `gindex`: a generalized
/// index of 64 bits has a depth below the limit, so the limit refuses only
/// branches that the depth refuses too. Otherwise the error tells which
/// check failed first.
pub fn is_valid_merkle_branch(leaf: H256, branch: &Vec<H256>, gindex: u64, root: Root) -> (res:
    Result<(), MerkleError>)
    ensures
        res is Ok <==> branch_proves(leaf.0@, branch@, gindex, root.0@),
        res matches Err(error) ==> branch_rejection(
            error,
            leaf.0@,
            branch@,
            gindex,
            root,
            MAX_MERKLE_DEPTH,
        ),
{
    proof {
        lemma_floor_log2_u64(gindex);
    }
    is_valid_merkle_branch_with_max_depth(leaf, branch, gindex, root, MAX_MERKLE_DEPTH)
}

} // verus!
