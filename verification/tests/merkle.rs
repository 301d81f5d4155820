use evm_light_client::errors::MerkleError;
use evm_light_client::hash::hash_nodes;
use evm_light_client::merkle::{
    floor_log2, get_subtree_index, is_valid_merkle_branch, is_valid_merkle_branch_with_max_depth,
    MAX_MERKLE_DEPTH,
};
use evm_light_client::types::H256;
use sha2::{Digest, Sha256};

fn h(byte: u8) -> H256 {
    H256([byte; 32])
}

fn from_hex(text: &str) -> H256 {
    let bytes = hex::decode(text).unwrap();
    let mut out = [0u8; 32];
    out.copy_from_slice(&bytes);
    H256(out)
}

fn sha(left: &H256, right: &H256) -> H256 {
    let mut hasher = Sha256::new();
    hasher.update(left.0);
    hasher.update(right.0);
    let digest: [u8; 32] = hasher.finalize().into();
    H256(digest)
}

#[test]
fn hash_nodes_is_sha256_of_the_concatenation() {
    let zero = H256([0u8; 32]);
    assert_eq!(
        hash_nodes(&zero, &zero),
        from_hex("f5a5fd42d16a20302798ef6ed309979b43003d2320d9f0e8ea9831a92759fb4b")
    );
    assert_eq!(hash_nodes(&h(1), &h(2)), sha(&h(1), &h(2)));
    assert_ne!(hash_nodes(&h(1), &h(2)), hash_nodes(&h(2), &h(1)));
}

#[test]
fn depth_and_position_of_generalized_indices() {
    assert_eq!(floor_log2(1), 0);
    assert_eq!(floor_log2(2), 1);
    assert_eq!(floor_log2(3), 1);
    assert_eq!(floor_log2(9), 3);
    assert_eq!(floor_log2(55), 5);
    assert_eq!(floor_log2(105), 6);
    assert_eq!(floor_log2(169), 7);
    assert_eq!(floor_log2(u64::MAX), 63);
    assert_eq!(get_subtree_index(1), 0);
    assert_eq!(get_subtree_index(9), 1);
    assert_eq!(get_subtree_index(55), 23);
    assert_eq!(get_subtree_index(105), 41);
    assert_eq!(get_subtree_index(u64::MAX), (1u64 << 63) - 1);
}

#[test]
fn branch_at_index_nine_is_accepted() {
    let leaf = h(0xaa);
    let (h1, h2, h3) = (h(1), h(2), h(3));
    // node 9 is a right child, its parent 4 and grandparent 2 are left children
    let root = sha(&sha(&sha(&h1, &leaf), &h2), &h3);
    assert!(is_valid_merkle_branch(leaf, &vec![h1, h2, h3], 9, root).is_ok());
}

#[test]
fn flipping_any_branch_element_is_refused() {
    let leaf = h(0xaa);
    let (h1, h2, h3) = (h(1), h(2), h(3));
    let root = sha(&sha(&sha(&h1, &leaf), &h2), &h3);
    for i in 0..3 {
        let mut branch = vec![h1, h2, h3];
        branch[i].0[7] ^= 1;
        let res = is_valid_merkle_branch(leaf, &branch, 9, root);
        match res {
            Err(MerkleError::InvalidMerkleBranch(l, b, index, expected, actual)) => {
                assert_eq!(l, leaf);
                assert_eq!(b, branch);
                assert_eq!(index, 1);
                assert_eq!(expected, root);
                assert_ne!(actual, root);
            }
            other => panic!("unexpected result: {:?}", other),
        }
    }
    let res = is_valid_merkle_branch(h(0xab), &vec![h1, h2, h3], 9, root);
    assert!(matches!(res, Err(MerkleError::InvalidMerkleBranch(..))));
}

#[test]
fn all_right_children_hash_with_siblings_on_the_left() {
    let leaf = h(0xaa);
    let (h1, h2, h3) = (h(1), h(2), h(3));
    let root = sha(&h3, &sha(&h2, &sha(&h1, &leaf)));
    assert!(is_valid_merkle_branch(leaf, &vec![h1, h2, h3], 15, root).is_ok());
    let res = is_valid_merkle_branch(leaf, &vec![h1, h2, h3], 9, root);
    assert!(matches!(res, Err(MerkleError::InvalidMerkleBranch(..))));
}

#[test]
fn all_left_children_hash_with_siblings_on_the_right() {
    let leaf = h(0xaa);
    let (h1, h2, h3) = (h(1), h(2), h(3));
    let root = sha(&sha(&sha(&leaf, &h1), &h2), &h3);
    assert!(is_valid_merkle_branch(leaf, &vec![h1, h2, h3], 8, root).is_ok());
}

#[test]
fn known_proof_of_depth_three() {
    let leaf = from_hex("94159da973dfa9e40ed02535ee57023ba2d06bad1017e451055470967eb71cd5");
    let branch = vec![
        from_hex("8f594dbb4f4219ad4967f86b9cccdb26e37e44995a291582a431eef36ecba45c"),
        from_hex("f8c2ed25e9c31399d4149dcaa48c51f394043a6a1297e65780a5979e3d7bb77c"),
        from_hex("382ba9638ce263e802593b387538faefbaed106e9f51ce793d405f161b105ee6"),
    ];
    let root = from_hex("27097c728aade54ff1376d5954681f6d45c282a81596ef19183148441b754abb");
    // position 2 at depth 3
    assert!(is_valid_merkle_branch(leaf, &branch, 8 + 2, root).is_ok());
    assert!(is_valid_merkle_branch(leaf, &branch, 8 + 3, root).is_err());
}

#[test]
fn the_root_proves_itself_with_an_empty_branch() {
    let leaf = h(5);
    assert!(is_valid_merkle_branch(leaf, &vec![], 1, leaf).is_ok());
    assert!(matches!(
        is_valid_merkle_branch(leaf, &vec![], 1, h(6)),
        Err(MerkleError::InvalidMerkleBranch(..))
    ));
}

#[test]
fn index_zero_is_refused() {
    let res = is_valid_merkle_branch(h(1), &vec![h(2)], 0, h(3));
    assert!(matches!(res, Err(MerkleError::InvalidGeneralIndex(0))));
}

#[test]
fn branch_of_wrong_length_is_refused() {
    let res = is_valid_merkle_branch(h(1), &vec![h(2), h(3)], 9, h(3));
    match res {
        Err(MerkleError::InvalidMerkleBranchLength(depth, leaf, branch, index, root)) => {
            assert_eq!(depth, 3);
            assert_eq!(leaf, h(1));
            assert_eq!(branch, vec![h(2), h(3)]);
            assert_eq!(index, 1);
            assert_eq!(root, h(3));
        }
        other => panic!("unexpected result: {:?}", other),
    }
    let res = is_valid_merkle_branch(h(1), &vec![h(2); 4], 9, h(3));
    assert!(matches!(res, Err(MerkleError::InvalidMerkleBranchLength(3, ..))));
}

#[test]
fn branch_beyond_the_depth_limit_is_refused() {
    assert_eq!(MAX_MERKLE_DEPTH, 64);
    let res = is_valid_merkle_branch(h(1), &vec![h(2); 65], 9, h(3));
    assert!(matches!(res, Err(MerkleError::TooLongMerkleBranchLength(64, ..))));
    let res = is_valid_merkle_branch(h(1), &vec![h(2); 64], 9, h(3));
    assert!(matches!(res, Err(MerkleError::InvalidMerkleBranchLength(3, ..))));
    let leaf = h(0xaa);
    let (h1, h2, h3) = (h(1), h(2), h(3));
    let root = sha(&sha(&sha(&h1, &leaf), &h2), &h3);
    let res = is_valid_merkle_branch_with_max_depth(leaf, &vec![h1, h2, h3], 9, root, 2);
    assert!(matches!(res, Err(MerkleError::TooLongMerkleBranchLength(2, ..))));
    let res = is_valid_merkle_branch_with_max_depth(leaf, &vec![h1, h2, h3], 9, root, 3);
    assert!(res.is_ok());
}
