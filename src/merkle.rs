//! The transaction merkle tree: an ordered binary tree of SHA-256 digests.
use vstd::prelude::*;
use crate::digest::{sha256_of, H256};
use crate::indexed::IndexedTransaction;
use crate::proto::put_raw;
use crate::raw::{encode_transaction, Transaction};

verus! {

/// The bytes of each digest.
pub open spec fn hash_views(hashes: Seq<H256>) -> Seq<Seq<u8>> {
    hashes.map_values(|h: H256| h@)
}

/// Digest of an inner node: SHA-256 over the left digest followed by the
/// right one.
pub open spec fn node_hash(left: Seq<u8>, right: Seq<u8>) -> Seq<u8> {
    sha256_of(left + right)
}

/// The level above `level`: neighbours paired off in order and hashed
/// together; an odd digest at the end is carried up unchanged.
pub open spec fn next_level(level: Seq<Seq<u8>>) -> Seq<Seq<u8>> {
    Seq::new(
        ((level.len() + 1) / 2) as nat,
        |i: int|
            if 2 * i + 1 < level.len() {
                node_hash(level[2 * i], level[2 * i + 1])
            } else {
                level[2 * i]
            },
    )
}

/// The root of a tree without leaves: 32 zero bytes.
pub open spec fn empty_root() -> Seq<u8> {
    Seq::new(32, |i: int| 0u8)
}

/// The root over `leaves`: levels are built until one digest is left.
pub open spec fn merkle_root_of(leaves: Seq<Seq<u8>>) -> Seq<u8>
    decreases leaves.len(),
{
    if leaves.len() == 0 {
        empty_root()
    } else if leaves.len() == 1 {
        leaves[0]
    } else {
        merkle_root_of(next_level(leaves))
    }
}

/// The leaf of a transaction: SHA-256 of its full canonical encoding.
pub open spec fn tx_leaf(t: Transaction) -> Seq<u8> {
    sha256_of(encode_transaction(t))
}

/// The leaves of a transaction list, in transaction order.
pub open spec fn tx_leaves(txs: Seq<Transaction>) -> Seq<Seq<u8>> {
    txs.map_values(|t: Transaction| tx_leaf(t))
}

/// The merkle root that a transaction list commits to.
pub open spec fn tx_merkle_root(txs: Seq<Transaction>) -> Seq<u8> {
    merkle_root_of(tx_leaves(txs))
}

/// The raw transactions under a list of indexed ones.
pub open spec fn raw_transactions(txs: Seq<IndexedTransaction>) -> Seq<Transaction> {
    txs.map_values(|t: IndexedTransaction| t.raw)
}

/// `s` with the items at `i` and `j` exchanged.
pub open spec fn swapped<T>(s: Seq<T>, i: int, j: int) -> Seq<T> {
    s.update(i, s[j]).update(j, s[i])
}

/// The merkle root depends on the raw transactions and their order alone:
/// two lists that hold the same raw transactions in the same order give the
/// same root, whatever ids were cached with them.
pub proof fn lemma_merkle_root_deterministic(a: Seq<IndexedTransaction>, b: Seq<IndexedTransaction>)
    requires
        raw_transactions(a) == raw_transactions(b),
    ensures
        tx_merkle_root(raw_transactions(a)) == tx_merkle_root(raw_transactions(b)),
{
}

/// The leaves follow the transactions' order: exchanging two transactions
/// exchanges their two leaves and leaves every other leaf in place.
pub proof fn lemma_leaves_follow_order(txs: Seq<Transaction>, i: int, j: int)
    requires
        0 <= i < txs.len(),
        0 <= j < txs.len(),
    ensures
        tx_leaves(swapped(txs, i, j)) == swapped(tx_leaves(txs), i, j),
{
    assert(tx_leaves(swapped(txs, i, j)) =~= swapped(tx_leaves(txs), i, j));
}

/// Builds the level above `level`.
fn build_next_level(level: &Vec<H256>) -> (r: Vec<H256>)
    ensures
        hash_views(r@) == next_level(hash_views(level@)),
        r@.len() == (level@.len() + 1) / 2,
{
    let ghost below = hash_views(level@);
    let ghost above = next_level(below);
    let mut out: Vec<H256> = Vec::new();
    let mut i: usize = 0;
    while i + 1 < level.len()
        invariant
            i == 2 * out@.len(),
            i <= level@.len(),
            below == hash_views(level@),
            above == next_level(below),
            forall|j: int| 0 <= j < out@.len() ==> #[trigger] out@[j]@ == above[j],
        decreases level@.len() - i,
    {
        let mut pair: Vec<u8> = Vec::new();
        put_raw(level[i].as_bytes(), &mut pair);
        put_raw(level[i + 1].as_bytes(), &mut pair);
        out.push(H256::sha256(pair.as_slice()));
        i = i + 2;
    }
    if i < level.len() {
        out.push(level[i].clone());
    }
    assert(hash_views(out@) =~= above);
    out
}

/// A merkle tree over an ordered list of leaf digests.
pub struct MerkleTree {
    leaves: Vec<H256>,
    root: H256,
}

impl MerkleTree {
    #[verifier::type_invariant]
    spec fn inv(&self) -> bool {
        self.root@ == merkle_root_of(hash_views(self.leaves@))
    }

    /// The leaf digests, in order.
    pub closed spec fn leaves(&self) -> Seq<Seq<u8>> {
        hash_views(self.leaves@)
    }

    /// Builds the tree over `hashes`, in the order given.
    pub fn from_vec(hashes: Vec<H256>) -> (r: MerkleTree)
        ensures
            r.leaves() == hash_views(hashes@),
    {
        let ghost target = merkle_root_of(hash_views(hashes@));
        let mut level = build_next_level(&hashes);
        if hashes.len() <= 1 {
            assert(hash_views(level@) =~= hash_views(hashes@));
        }
        while level.len() > 1
            invariant
                merkle_root_of(hash_views(level@)) == target,
            decreases level@.len(),
        {
            level = build_next_level(&level);
        }
        let root = if level.len() == 0 {
            H256::zero()
        } else {
            level[0].clone()
        };
        assert(root@ == target);
        MerkleTree { leaves: hashes, root }
    }

    /// The root digest.
    pub fn root_hash(&self) -> (r: &H256)
        ensures
            r@ == merkle_root_of(self.leaves()),
    {
        proof {
            use_type_invariant(self);
        }
        &self.root
    }
}

/// The leaf digest of a transaction.
pub fn get_transaction_hash_for_merkle_root(transaction: &Transaction) -> (r: H256)
    ensures
        r@ == tx_leaf(*transaction),
{
    let buf = transaction.encode();
    H256::sha256(buf.as_slice())
}

/// The merkle root over the transactions, in order.
pub fn merkle_root(transactions: &[IndexedTransaction]) -> (r: H256)
    ensures
        r@ == tx_merkle_root(raw_transactions(transactions@)),
{
    let mut hashes: Vec<H256> = Vec::new();
    let mut i: usize = 0;
    while i < transactions.len()
        invariant
            i <= transactions@.len(),
            hashes@.len() == i,
            forall|j: int|
                0 <= j < i ==> #[trigger] hashes@[j]@ == tx_leaf(transactions@[j].raw),
        decreases transactions@.len() - i,
    {
        hashes.push(get_transaction_hash_for_merkle_root(&transactions[i].raw));
        i = i + 1;
    }
    assert(hash_views(hashes@) =~= tx_leaves(raw_transactions(transactions@)));
    let tree = MerkleTree::from_vec(hashes);
    tree.root_hash().clone()
}

} // verus!
