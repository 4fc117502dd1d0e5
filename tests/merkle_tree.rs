use chain::digest::H256;
use chain::indexed::IndexedTransaction;
use chain::merkle::{get_transaction_hash_for_merkle_root, merkle_root, MerkleTree};
use chain::raw::Transaction;
use sha2::{Digest, Sha256};

fn sha(data: &[u8]) -> Vec<u8> {
    Sha256::digest(data).to_vec()
}

fn h(byte: u8) -> H256 {
    H256::from_slice(&[byte; 32])
}

fn node(a: &[u8], b: &[u8]) -> Vec<u8> {
    let mut buf = a.to_vec();
    buf.extend_from_slice(b);
    sha(&buf)
}

#[test]
fn empty_tree_root_is_zero() {
    let tree = MerkleTree::from_vec(vec![]);
    assert_eq!(tree.root_hash().as_bytes(), &[0u8; 32]);
    assert_eq!(merkle_root(&[]).as_bytes(), &[0u8; 32]);
}

#[test]
fn single_leaf_is_root() {
    let tree = MerkleTree::from_vec(vec![h(5)]);
    assert_eq!(tree.root_hash().as_bytes(), &[5u8; 32]);
}

#[test]
fn two_leaves_hash_together() {
    let tree = MerkleTree::from_vec(vec![h(1), h(2)]);
    assert_eq!(tree.root_hash().as_bytes(), &node(&[1; 32], &[2; 32])[..]);
}

#[test]
fn odd_leaf_is_carried_up() {
    let tree = MerkleTree::from_vec(vec![h(1), h(2), h(3)]);
    let expected = node(&node(&[1; 32], &[2; 32]), &[3; 32]);
    assert_eq!(tree.root_hash().as_bytes(), &expected[..]);
}

#[test]
fn five_leaves() {
    let tree = MerkleTree::from_vec(vec![h(1), h(2), h(3), h(4), h(5)]);
    let left = node(&node(&[1; 32], &[2; 32]), &node(&[3; 32], &[4; 32]));
    let expected = node(&left, &[5; 32]);
    assert_eq!(tree.root_hash().as_bytes(), &expected[..]);
}

#[test]
fn leaf_is_digest_of_full_encoding() {
    let t = Transaction { raw_data: vec![1, 2], signature: vec![vec![3]], ret: vec![] };
    let leaf = get_transaction_hash_for_merkle_root(&t);
    assert_eq!(leaf.as_bytes(), &sha(&[0x0a, 2, 1, 2, 0x12, 1, 3])[..]);
    assert_ne!(leaf.as_bytes(), &sha(&[1, 2])[..]);
}

#[test]
fn root_of_one_transaction_is_its_leaf() {
    let t = Transaction { raw_data: vec![1, 2], signature: vec![], ret: vec![] };
    let root = merkle_root(&[IndexedTransaction::from_raw(t)]);
    assert_eq!(root.as_bytes(), &sha(&[0x0a, 2, 1, 2])[..]);
}

#[test]
fn digest_comparisons() {
    assert!(h(1).same_as(&h(1)));
    assert!(!h(1).same_as(&h(2)));
    assert!(h(1).matches_bytes(&[1; 32]));
    assert!(!h(1).matches_bytes(&[1; 31]));
    assert!(!h(1).matches_bytes(&[]));
    assert_eq!(H256::zero().as_bytes(), &[0u8; 32]);
    assert_eq!(H256::sha256(b"abc").as_bytes(), &sha(b"abc")[..]);
}
