//! Blocks, headers and transactions as they travel on the wire, and their
//! canonical encoding.
use vstd::prelude::*;
use crate::proto::{
    bytes_field, bytes_views, int_field, len_field, put_bytes_field, put_int_field,
    put_len_field, put_repeated_field, repeated_field,
};

verus! {

/// A transaction as carried on the wire.
#[derive(Clone, Debug)]
pub struct Transaction {
    /// The encoded `raw` message; a transaction's id is the digest of it.
    pub raw_data: Vec<u8>,
    /// The signatures, in order.
    pub signature: Vec<Vec<u8>>,
    /// The encoded execution results, in order.
    pub ret: Vec<Vec<u8>>,
}

/// The signed part of a block header.
#[derive(Clone, Debug)]
pub struct BlockHeaderRaw {
    pub timestamp: i64,
    /// Root of the transaction merkle tree; empty while not yet computed.
    pub merkle_root_hash: Vec<u8>,
    pub parent_hash: Vec<u8>,
    pub number: i64,
    pub witness_id: i64,
    pub witness_address: Vec<u8>,
    pub version: i32,
    pub account_state_root: Vec<u8>,
}

/// A block header: its signed part and the witness signature over it.
#[derive(Clone, Debug)]
pub struct BlockHeader {
    pub raw_data: BlockHeaderRaw,
    pub witness_signature: Vec<u8>,
}

/// A block as received from a peer or read from storage.
#[derive(Clone, Debug)]
pub struct Block {
    pub transactions: Vec<Transaction>,
    pub block_header: Option<BlockHeader>,
}

/// A compact reference to a block: its number and its hash.
#[derive(Clone, Debug)]
pub struct BlockId {
    pub number: i64,
    pub hash: Vec<u8>,
}

/// Canonical encoding of a transaction.
pub open spec fn encode_transaction(t: Transaction) -> Seq<u8> {
    len_field(1, t.raw_data@) + repeated_field(2, bytes_views(t.signature@)) + repeated_field(
        5,
        bytes_views(t.ret@),
    )
}

/// Canonical encoding of the signed part of a header.
pub open spec fn encode_header_raw(r: BlockHeaderRaw) -> Seq<u8> {
    int_field(1, r.timestamp as u64) + bytes_field(2, r.merkle_root_hash@) + bytes_field(
        3,
        r.parent_hash@,
    ) + int_field(7, r.number as u64) + int_field(8, r.witness_id as u64) + bytes_field(
        9,
        r.witness_address@,
    ) + int_field(10, r.version as i64 as u64) + bytes_field(11, r.account_state_root@)
}

/// Canonical encoding of a header.
pub open spec fn encode_header(h: BlockHeader) -> Seq<u8> {
    len_field(1, encode_header_raw(h.raw_data)) + bytes_field(2, h.witness_signature@)
}

/// The field that carries a block's header, when it has one.
pub open spec fn header_field(header: Option<BlockHeader>) -> Seq<u8> {
    match header {
        Some(h) => len_field(2, encode_header(h)),
        None => Seq::empty(),
    }
}

/// The encodings of a list of transactions, in order.
pub open spec fn encode_transactions(txs: Seq<Transaction>) -> Seq<Seq<u8>> {
    txs.map_values(|t: Transaction| encode_transaction(t))
}

/// Canonical encoding of a block made of an optional header and transactions.
pub open spec fn encode_block_parts(header: Option<BlockHeader>, txs: Seq<Transaction>) -> Seq<
    u8,
> {
    repeated_field(1, encode_transactions(txs)) + header_field(header)
}

/// Canonical encoding of a block.
pub open spec fn encode_block(b: Block) -> Seq<u8> {
    encode_block_parts(b.block_header, b.transactions@)
}

impl Transaction {
    /// The transaction's canonical encoding.
    pub fn encode(&self) -> (r: Vec<u8>)
        ensures
            r@ == encode_transaction(*self),
    {
        let mut buf: Vec<u8> = Vec::new();
        put_len_field(1, self.raw_data.as_slice(), &mut buf);
        put_repeated_field(2, &self.signature, &mut buf);
        put_repeated_field(5, &self.ret, &mut buf);
        assert(buf@ =~= encode_transaction(*self));
        buf
    }
}

impl BlockHeaderRaw {
    /// The canonical encoding of the header's signed part.
    pub fn encode(&self) -> (r: Vec<u8>)
        ensures
            r@ == encode_header_raw(*self),
    {
        let mut buf: Vec<u8> = Vec::new();
        put_int_field(1, self.timestamp as u64, &mut buf);
        put_bytes_field(2, self.merkle_root_hash.as_slice(), &mut buf);
        put_bytes_field(3, self.parent_hash.as_slice(), &mut buf);
        put_int_field(7, self.number as u64, &mut buf);
        put_int_field(8, self.witness_id as u64, &mut buf);
        put_bytes_field(9, self.witness_address.as_slice(), &mut buf);
        put_int_field(10, self.version as i64 as u64, &mut buf);
        put_bytes_field(11, self.account_state_root.as_slice(), &mut buf);
        assert(buf@ =~= encode_header_raw(*self));
        buf
    }
}

impl BlockHeader {
    /// The header's canonical encoding.
    pub fn encode(&self) -> (r: Vec<u8>)
        ensures
            r@ == encode_header(*self),
    {
        let raw = self.raw_data.encode();
        let mut buf: Vec<u8> = Vec::new();
        put_len_field(1, raw.as_slice(), &mut buf);
        put_bytes_field(2, self.witness_signature.as_slice(), &mut buf);
        assert(buf@ =~= encode_header(*self));
        buf
    }
}

/// Canonical encoding of a block given by its optional header and the
/// encodings of its transactions.
pub(crate) fn encode_block_with(header: Option<&BlockHeader>, encoded_txs: &Vec<Vec<u8>>) -> (r:
    Vec<u8>)
    ensures
        r@ == repeated_field(1, bytes_views(encoded_txs@)) + header_field(
            match header {
                Some(h) => Some(*h),
                None => None,
            },
        ),
{
    let mut buf: Vec<u8> = Vec::new();
    put_repeated_field(1, encoded_txs, &mut buf);
    match header {
        Some(h) => {
            let eh = h.encode();
            put_len_field(2, eh.as_slice(), &mut buf);
        },
        None => {
            assert(buf@ =~= buf@ + Seq::<u8>::empty());
        },
    }
    buf
}

/// The encodings of the transactions, in order.
fn encode_each(txs: &[Transaction]) -> (r: Vec<Vec<u8>>)
    ensures
        bytes_views(r@) == encode_transactions(txs@),
{
    let mut encoded: Vec<Vec<u8>> = Vec::new();
    let mut i: usize = 0;
    while i < txs.len()
        invariant
            i <= txs@.len(),
            encoded@.len() == i,
            forall|j: int| 0 <= j < i ==> (#[trigger] encoded@[j])@ == encode_transaction(txs@[j]),
        decreases txs@.len() - i,
    {
        encoded.push(txs[i].encode());
        i = i + 1;
    }
    assert(bytes_views(encoded@) =~= encode_transactions(txs@));
    encoded
}

impl Block {
    /// The block's canonical encoding.
    pub fn encode(&self) -> (r: Vec<u8>)
        ensures
            r@ == encode_block(*self),
    {
        let header = match &self.block_header {
            Some(h) => Some(h),
            None => None,
        };
        let encoded = encode_each(self.transactions.as_slice());
        encode_block_with(header, &encoded)
    }

    /// Length in bytes of the block's canonical encoding.
    pub fn encoded_len(&self) -> (r: usize)
        ensures
            r == encode_block(*self).len(),
    {
        self.encode().len()
    }
}

} // verus!
