//! Raw values paired with the digest computed from them when they were
//! indexed.
use vstd::prelude::*;
use crate::digest::{sha256_of, H256, HASH_LEN};
use crate::endian::{be_value, write_u64_be};
use crate::raw::{encode_header_raw, BlockHeader, Transaction};

verus! {

/// A transaction with its id: the SHA-256 digest of its `raw_data`.
#[derive(Clone, Debug)]
pub struct IndexedTransaction {
    pub hash: H256,
    pub raw: Transaction,
}

/// A header with its block hash: the SHA-256 digest of its signed part, with
/// the first eight bytes replaced by the block number in big-endian order.
#[derive(Clone, Debug)]
pub struct IndexedBlockHeader {
    pub hash: H256,
    pub raw: BlockHeader,
}

/// What a block hash is made of: the number's eight big-endian bytes, then
/// the tail of the digest of the header's signed part.
pub open spec fn is_block_hash_of(hash: Seq<u8>, header: BlockHeader) -> bool {
    &&& hash.len() == HASH_LEN
    &&& be_value(hash.subrange(0, 8)) == header.raw_data.number as u64 as nat
    &&& hash.subrange(8, 32) == sha256_of(encode_header_raw(header.raw_data)).subrange(8, 32)
}

impl IndexedTransaction {
    /// Pairs a transaction with a hash computed elsewhere.
    pub fn new(hash: H256, raw: Transaction) -> (r: IndexedTransaction)
        ensures
            r.hash@ == hash@,
            r.raw == raw,
    {
        IndexedTransaction { hash, raw }
    }

    /// Indexes a transaction by the digest of its `raw_data`.
    pub fn from_raw(raw: Transaction) -> (r: IndexedTransaction)
        ensures
            r.hash@ == sha256_of(raw.raw_data@),
            r.raw == raw,
    {
        let hash = H256::sha256(raw.raw_data.as_slice());
        IndexedTransaction { hash, raw }
    }
}

impl IndexedBlockHeader {
    /// Pairs a header with a hash computed elsewhere.
    pub fn new(hash: H256, raw: BlockHeader) -> (r: IndexedBlockHeader)
        ensures
            r.hash@ == hash@,
            r.raw == raw,
    {
        IndexedBlockHeader { hash, raw }
    }

    /// Indexes a header by its block hash.
    pub fn from_raw(raw: BlockHeader) -> (r: IndexedBlockHeader)
        ensures
            is_block_hash_of(r.hash@, raw),
            r.raw == raw,
    {
        let encoded = raw.raw_data.encode();
        let digest = H256::sha256(encoded.as_slice());
        let mut bytes = vstd::slice::slice_to_vec(digest.as_bytes());
        write_u64_be(&mut bytes, raw.raw_data.number as u64);
        let hash = H256::from_slice(bytes.as_slice());
        IndexedBlockHeader { hash, raw }
    }
}

} // verus!
