//! The indexed block: a header and transactions with their digests, the
//! merkle root they commit to, and its verification.
use vstd::prelude::*;
use crate::digest::{sha256_of, H256};
use crate::endian::{be_value, read_u64_be};
use crate::indexed::{is_block_hash_of, IndexedBlockHeader, IndexedTransaction};
use crate::merkle::{merkle_root, raw_transactions, tx_merkle_root};
use crate::proto::bytes_views;
use crate::raw::{
    encode_block, encode_block_parts, encode_block_with, encode_transaction, encode_transactions,
    Block, BlockHeader, BlockId, Transaction,
};
use crate::whitelist::{in_block_whitelist, is_whitelisted};

verus! {

/// The block number carried in the first eight bytes of a block hash, read
/// big-endian and taken as a signed integer.
pub open spec fn block_number_of(hash: Seq<u8>) -> i64 {
    be_value(hash.subrange(0, 8)) as u64 as i64
}

/// `a` and `b` agree on every header field but the merkle root.
pub open spec fn same_but_root(a: BlockHeader, b: BlockHeader) -> bool {
    &&& a.witness_signature == b.witness_signature
    &&& a.raw_data.timestamp == b.raw_data.timestamp
    &&& a.raw_data.parent_hash == b.raw_data.parent_hash
    &&& a.raw_data.number == b.raw_data.number
    &&& a.raw_data.witness_id == b.raw_data.witness_id
    &&& a.raw_data.witness_address == b.raw_data.witness_address
    &&& a.raw_data.version == b.raw_data.version
    &&& a.raw_data.account_state_root == b.raw_data.account_state_root
}

/// The header that construction keeps: `before` itself when it carries a
/// merkle root, otherwise `before` with `root` filled in.
pub open spec fn backfilled(before: BlockHeader, after: BlockHeader, root: Seq<u8>) -> bool {
    if before.raw_data.merkle_root_hash@.len() == 0 {
        &&& same_but_root(before, after)
        &&& after.raw_data.merkle_root_hash@ == root
    } else {
        after == before
    }
}

/// `b` is what indexing the raw block `raw` gives: its transactions in
/// order, each with its id, and its header, backfilled, with its block hash.
pub open spec fn built_from(raw: Block, b: IndexedBlock) -> bool {
    &&& raw.block_header is Some
    &&& raw_transactions(b.transactions@) == raw.transactions@
    &&& forall|i: int|
        0 <= i < b.transactions@.len() ==> #[trigger] b.transactions@[i].hash@ == sha256_of(
            raw.transactions@[i].raw_data@,
        )
    &&& backfilled(
        raw.block_header.unwrap(),
        b.header.raw,
        tx_merkle_root(raw.transactions@),
    )
    &&& is_block_hash_of(b.header.hash@, b.header.raw)
}

/// `raw` is what `b` gives back: its header and its raw transactions, in
/// order.
pub open spec fn unindexed(b: IndexedBlock, raw: Block) -> bool {
    &&& raw.block_header == Some(b.header.raw)
    &&& raw.transactions@ == raw_transactions(b.transactions@)
}

/// Length of the canonical encoding of the raw block under `b`.
pub open spec fn block_size(b: IndexedBlock) -> nat {
    encode_block_parts(Some(b.header.raw), raw_transactions(b.transactions@)).len()
}

/// The merkle root that `b`'s header stores.
pub open spec fn stored_root(b: IndexedBlock) -> Seq<u8> {
    b.header.raw.raw_data.merkle_root_hash@
}

/// Whether `b` passes merkle verification: its number is one of the known
/// malformed blocks, or its stored root is the root of its transactions.
pub open spec fn merkle_root_verified(b: IndexedBlock) -> bool {
    is_whitelisted(block_number_of(b.header.hash@)) || stored_root(b) == tx_merkle_root(
        raw_transactions(b.transactions@),
    )
}

/// The outcome of checking a block's merkle root, with what was compared.
#[derive(Clone, Debug)]
pub struct MerkleRootCheck {
    /// The block's number.
    pub number: i64,
    /// Whether the number is one of the known malformed blocks.
    pub whitelisted: bool,
    /// Whether the stored root equals the computed one.
    pub matched: bool,
    /// The root stored in the header.
    pub stored: Vec<u8>,
    /// The root computed from the transactions.
    pub computed: H256,
}

impl MerkleRootCheck {
    /// Whether the block passes: it matched, or it is a known malformed one.
    pub fn passed(&self) -> (r: bool)
        ensures
            r == (self.whitelisted || self.matched),
    {
        self.whitelisted || self.matched
    }
}

/// A block with a header and transactions that were indexed elsewhere.
#[derive(Clone, Debug)]
pub struct IndexedBlock {
    pub header: IndexedBlockHeader,
    pub transactions: Vec<IndexedTransaction>,
}

impl IndexedBlock {
    /// Assembles a block from parts indexed elsewhere; nothing is hashed.
    pub fn new(header: IndexedBlockHeader, transactions: Vec<IndexedTransaction>) -> (r:
        IndexedBlock)
        ensures
            r.header == header,
            r.transactions == transactions,
    {
        IndexedBlock { header, transactions }
    }

    /// Indexes a block given as its header and transactions.
    pub fn from_header_and_txns(header: BlockHeader, txns: Vec<Transaction>) -> (r: IndexedBlock)
        ensures
            built_from((Block { transactions: txns, block_header: Some(header) }), r),
    {
        Self::from_raw(Block { transactions: txns, block_header: Some(header) })
    }

    /// Indexes a raw block: each transaction gets its id; when the header's
    /// merkle root is empty the root of the transactions is written into it;
    /// then the header gets its block hash. A block without a header cannot
    /// be indexed.
    pub fn from_raw(block: Block) -> (r: IndexedBlock)
        requires
            block.block_header is Some,
        ensures
            built_from(block, r),
    {
        let Block { transactions, block_header } = block;
        let ghost txs = transactions@;
        let mut indexed: Vec<IndexedTransaction> = Vec::new();
        for t in iter: transactions.into_iter()
            invariant
                iter.seq() == txs,
                indexed@.len() == iter.index(),
                forall|j: int|
                    0 <= j < iter.index() ==> (#[trigger] indexed@[j]).raw == txs[j]
                        && indexed@[j].hash@ == sha256_of(txs[j].raw_data@),
        {
            indexed.push(IndexedTransaction::from_raw(t));
        }
        assert(raw_transactions(indexed@) =~= txs);
        let mut header = block_header.unwrap();
        if header.raw_data.merkle_root_hash.len() == 0 {
            let root = merkle_root(indexed.as_slice());
            header.raw_data.merkle_root_hash = vstd::slice::slice_to_vec(root.as_bytes());
        }
        Self::new(IndexedBlockHeader::from_raw(header), indexed)
    }

    /// The block hash, the block's identity.
    pub fn hash(&self) -> (r: &H256)
        ensures
            r@ == self.header.hash@,
    {
        &self.header.hash
    }

    /// The block number: the first eight bytes of the block hash, big-endian,
    /// as a signed integer.
    pub fn number(&self) -> (r: i64)
        ensures
            r == block_number_of(self.header.hash@),
    {
        read_u64_be(self.header.hash.as_bytes()) as i64
    }

    /// The block's number together with its hash.
    pub fn block_id(&self) -> (r: BlockId)
        ensures
            r.number == block_number_of(self.header.hash@),
            r.hash@ == self.header.hash@,
    {
        BlockId { number: self.number(), hash: vstd::slice::slice_to_vec(self.hash().as_bytes()) }
    }

    /// Gives back the raw block: the header and the raw transactions, without
    /// their digests.
    pub fn into_raw_block(self) -> (r: Block)
        ensures
            unindexed(self, r),
    {
        let IndexedBlock { header, transactions } = self;
        let ghost txs = transactions@;
        let mut raws: Vec<Transaction> = Vec::new();
        for t in iter: transactions.into_iter()
            invariant
                iter.seq() == txs,
                raws@.len() == iter.index(),
                forall|j: int| 0 <= j < iter.index() ==> #[trigger] raws@[j] == txs[j].raw,
        {
            raws.push(t.raw);
        }
        assert(raws@ =~= raw_transactions(txs));
        Block { transactions: raws, block_header: Some(header.raw) }
    }

    /// Length in bytes of the canonical encoding of the raw block.
    pub fn size(&self) -> (r: usize)
        ensures
            r == block_size(*self),
    {
        let mut encoded: Vec<Vec<u8>> = Vec::new();
        let mut i: usize = 0;
        while i < self.transactions.len()
            invariant
                i <= self.transactions@.len(),
                encoded@.len() == i,
                forall|j: int|
                    0 <= j < i ==> (#[trigger] encoded@[j])@ == encode_transaction(
                        self.transactions@[j].raw,
                    ),
            decreases self.transactions@.len() - i,
        {
            encoded.push(self.transactions[i].raw.encode());
            i = i + 1;
        }
        assert(bytes_views(encoded@) =~= encode_transactions(raw_transactions(self.transactions@)));
        encode_block_with(Some(&self.header.raw), &encoded).len()
    }

    /// The merkle root stored in the header, as it is.
    pub fn merkle_root_hash(&self) -> (r: &[u8])
        ensures
            r@ == stored_root(*self),
    {
        self.header.raw.raw_data.merkle_root_hash.as_slice()
    }

    /// Checks the stored merkle root against the root of the transactions,
    /// and reports what was compared.
    pub fn check_merkle_root(&self) -> (r: MerkleRootCheck)
        ensures
            r.number == block_number_of(self.header.hash@),
            r.whitelisted == is_whitelisted(r.number),
            r.stored@ == stored_root(*self),
            r.computed@ == tx_merkle_root(raw_transactions(self.transactions@)),
            r.matched == (r.stored@ == r.computed@),
    {
        let number = self.number();
        let computed = merkle_root(self.transactions.as_slice());
        let stored = self.merkle_root_hash();
        let matched = computed.matches_bytes(stored);
        MerkleRootCheck {
            number,
            whitelisted: in_block_whitelist(number),
            matched,
            stored: vstd::slice::slice_to_vec(stored),
            computed,
        }
    }

    /// Whether the stored merkle root is the root of the transactions; for a
    /// known malformed block, always true.
    pub fn verify_merkle_root_hash(&self) -> (r: bool)
        ensures
            r == merkle_root_verified(*self),
    {
        self.check_merkle_root().passed()
    }
}

/// Indexing a raw block and giving it back returns its transactions as they
/// were, and its header as it was, except that an empty merkle root comes
/// back filled with the root of the transactions.
pub proof fn lemma_round_trip(raw: Block, b: IndexedBlock, back: Block)
    requires
        built_from(raw, b),
        unindexed(b, back),
    ensures
        back.transactions@ == raw.transactions@,
        raw.block_header.unwrap().raw_data.merkle_root_hash@.len() != 0 ==> back.block_header
            == raw.block_header,
        raw.block_header.unwrap().raw_data.merkle_root_hash@.len() == 0 ==> {
            &&& back.block_header is Some
            &&& same_but_root(raw.block_header.unwrap(), back.block_header.unwrap())
            &&& back.block_header.unwrap().raw_data.merkle_root_hash@ == tx_merkle_root(
                raw.transactions@,
            )
        },
{
}

/// The number of an indexed block is the number written in its header.
pub proof fn lemma_number_of_built_block(raw: Block, b: IndexedBlock)
    requires
        built_from(raw, b),
    ensures
        block_number_of(b.header.hash@) == raw.block_header.unwrap().raw_data.number,
{
    let n = raw.block_header.unwrap().raw_data.number;
    assert(b.header.raw.raw_data.number == n);
    assert(n as u64 as i64 == n) by (bit_vector);
}

/// A block indexed from a header without a merkle root passes verification:
/// the root written into it is the root of its transactions.
pub proof fn lemma_backfilled_block_verifies(raw: Block, b: IndexedBlock)
    requires
        built_from(raw, b),
        raw.block_header.unwrap().raw_data.merkle_root_hash@.len() == 0,
    ensures
        merkle_root_verified(b),
{
}

/// A block indexed from a header whose merkle root is not the root of its
/// transactions keeps that header unchanged, and fails verification unless
/// its number is one of the known malformed blocks.
pub proof fn lemma_wrong_stored_root_fails(raw: Block, b: IndexedBlock)
    requires
        built_from(raw, b),
        raw.block_header.unwrap().raw_data.merkle_root_hash@.len() != 0,
        raw.block_header.unwrap().raw_data.merkle_root_hash@ != tx_merkle_root(raw.transactions@),
        !is_whitelisted(raw.block_header.unwrap().raw_data.number),
    ensures
        b.header.raw == raw.block_header.unwrap(),
        !merkle_root_verified(b),
{
    lemma_number_of_built_block(raw, b);
}

/// The size of an indexed block is the length of the canonical encoding of
/// the raw block it gives back.
pub proof fn lemma_size_consistency(b: IndexedBlock, back: Block)
    requires
        unindexed(b, back),
    ensures
        block_size(b) == encode_block(back).len(),
{
}

impl PartialEq for IndexedBlock {
    fn eq(&self, other: &IndexedBlock) -> (r: bool) {
        self.header.hash.same_as(&other.header.hash)
    }
}

impl vstd::std_specs::cmp::PartialEqSpecImpl for IndexedBlock {
    open spec fn obeys_eq_spec() -> bool {
        true
    }

    open spec fn eq_spec(&self, other: &IndexedBlock) -> bool {
        self.header.hash@ == other.header.hash@
    }
}

} // verus!
