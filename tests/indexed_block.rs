use chain::block::IndexedBlock;
use chain::digest::H256;
use chain::indexed::{IndexedBlockHeader, IndexedTransaction};
use chain::merkle::merkle_root;
use chain::raw::{Block, BlockHeader, BlockHeaderRaw, Transaction};
use sha2::{Digest, Sha256};

fn sha(data: &[u8]) -> Vec<u8> {
    Sha256::digest(data).to_vec()
}

fn tx(raw: &[u8], sig: &[u8]) -> Transaction {
    Transaction { raw_data: raw.to_vec(), signature: vec![sig.to_vec()], ret: vec![] }
}

fn header(number: i64, root: Vec<u8>) -> BlockHeader {
    BlockHeader {
        raw_data: BlockHeaderRaw {
            timestamp: 1_600_000_000_000,
            merkle_root_hash: root,
            parent_hash: vec![7u8; 32],
            number,
            witness_id: 0,
            witness_address: vec![0x41, 1, 2, 3],
            version: 20,
            account_state_root: vec![],
        },
        witness_signature: vec![9u8; 65],
    }
}

fn leaf(t: &Transaction) -> Vec<u8> {
    sha(&t.encode())
}

fn node(a: &[u8], b: &[u8]) -> Vec<u8> {
    let mut buf = a.to_vec();
    buf.extend_from_slice(b);
    sha(&buf)
}

fn three() -> Vec<Transaction> {
    vec![tx(b"t1", b"s1"), tx(b"t2", b"s2"), tx(b"t3", b"s3")]
}

#[test]
fn three_transactions_empty_root_is_backfilled_and_verifies() {
    let txs = three();
    let expected = node(&node(&leaf(&txs[0]), &leaf(&txs[1])), &leaf(&txs[2]));
    let block = IndexedBlock::from_header_and_txns(header(5_000_000, vec![]), txs);
    assert_eq!(block.merkle_root_hash(), &expected[..]);
    assert!(block.verify_merkle_root_hash());
}

#[test]
fn prepopulated_wrong_root_fails_and_is_kept() {
    let wrong = vec![0xabu8; 32];
    let block = IndexedBlock::from_header_and_txns(header(5_000_000, wrong.clone()), three());
    assert_eq!(block.merkle_root_hash(), &wrong[..]);
    assert!(!block.verify_merkle_root_hash());
    let check = block.check_merkle_root();
    assert!(!check.matched);
    assert!(!check.whitelisted);
    assert_eq!(check.stored, wrong);
    assert!(!check.passed());
}

#[test]
fn prepopulated_right_root_verifies() {
    let txs = three();
    let expected = node(&node(&leaf(&txs[0]), &leaf(&txs[1])), &leaf(&txs[2]));
    let block = IndexedBlock::from_header_and_txns(header(5_000_000, expected.clone()), txs);
    assert_eq!(block.merkle_root_hash(), &expected[..]);
    assert!(block.verify_merkle_root_hash());
    assert!(block.check_merkle_root().matched);
}

#[test]
fn whitelisted_number_passes_despite_mismatch() {
    let block = IndexedBlock::from_header_and_txns(header(1102553, vec![0xabu8; 32]), three());
    assert_eq!(block.number(), 1102553);
    let check = block.check_merkle_root();
    assert!(check.whitelisted);
    assert!(!check.matched);
    assert!(block.verify_merkle_root_hash());
}

#[test]
fn whitelisted_block_with_mutated_transactions_still_passes() {
    let mut block = IndexedBlock::from_header_and_txns(header(1135972, vec![]), three());
    assert!(block.verify_merkle_root_hash());
    block.transactions.pop();
    assert!(!block.check_merkle_root().matched);
    assert!(block.verify_merkle_root_hash());
}

#[test]
fn non_whitelisted_block_with_mutated_transactions_fails() {
    let mut block = IndexedBlock::from_header_and_txns(header(1102554, vec![]), three());
    assert!(block.verify_merkle_root_hash());
    block.transactions.pop();
    assert!(!block.verify_merkle_root_hash());
}

#[test]
fn number_reads_big_endian_prefix() {
    let mut bytes = vec![0u8; 32];
    bytes[..8].copy_from_slice(&[0, 0, 0, 0, 0, 0x10, 0xd2, 0xb9]);
    let h = IndexedBlockHeader::new(H256::from_slice(&bytes), header(1, vec![]));
    let block = IndexedBlock::new(h, vec![]);
    assert_eq!(block.number(), 0x10d2b9);
    assert_eq!(block.number(), 1102521);
}

#[test]
fn number_of_high_bit_prefix_is_negative() {
    let mut bytes = vec![0x55u8; 32];
    bytes[..8].copy_from_slice(&[0xff; 8]);
    let block = IndexedBlock::new(IndexedBlockHeader::new(H256::from_slice(&bytes), header(1, vec![])), vec![]);
    assert_eq!(block.number(), -1);
    bytes[..8].copy_from_slice(&[0x80, 0, 0, 0, 0, 0, 0, 0]);
    let block = IndexedBlock::new(IndexedBlockHeader::new(H256::from_slice(&bytes), header(1, vec![])), vec![]);
    assert_eq!(block.number(), i64::MIN);
}

#[test]
fn block_id_pairs_number_and_hash() {
    let block = IndexedBlock::from_header_and_txns(header(42, vec![]), three());
    let id = block.block_id();
    assert_eq!(id.number, 42);
    assert_eq!(id.hash, block.hash().as_bytes().to_vec());
}

#[test]
fn block_hash_embeds_number_and_digest_tail() {
    let h = header(0x0102_0304_0506_0708, vec![1u8; 32]);
    let digest = sha(&h.raw_data.encode());
    let indexed = IndexedBlockHeader::from_raw(h);
    let bytes = indexed.hash.as_bytes();
    assert_eq!(&bytes[..8], &[1, 2, 3, 4, 5, 6, 7, 8]);
    assert_eq!(&bytes[8..], &digest[8..]);
}

#[test]
fn transaction_id_is_digest_of_raw_data() {
    let t = tx(b"payload", b"sig");
    let indexed = IndexedTransaction::from_raw(t);
    assert_eq!(indexed.hash.as_bytes(), &sha(b"payload")[..]);
    assert_eq!(indexed.raw.raw_data, b"payload".to_vec());
}

#[test]
fn round_trip_keeps_header_and_transactions() {
    let txs = three();
    let h = header(77, vec![3u8; 32]);
    let raw = Block { transactions: txs.clone(), block_header: Some(h.clone()) };
    let back = IndexedBlock::from_raw(raw.clone()).into_raw_block();
    assert_eq!(back.encode(), raw.encode());
    assert_eq!(back.transactions.len(), 3);
    for (a, b) in back.transactions.iter().zip(txs.iter()) {
        assert_eq!(a.raw_data, b.raw_data);
        assert_eq!(a.signature, b.signature);
    }
    let bh = back.block_header.unwrap();
    assert_eq!(bh.raw_data.merkle_root_hash, vec![3u8; 32]);
    assert_eq!(bh.witness_signature, h.witness_signature);
}

#[test]
fn round_trip_fills_empty_root() {
    let txs = three();
    let expected = node(&node(&leaf(&txs[0]), &leaf(&txs[1])), &leaf(&txs[2]));
    let back = IndexedBlock::from_raw(Block { transactions: txs, block_header: Some(header(77, vec![])) })
        .into_raw_block();
    let bh = back.block_header.unwrap();
    assert_eq!(bh.raw_data.merkle_root_hash, expected);
    assert_eq!(bh.raw_data.number, 77);
    assert_eq!(bh.raw_data.parent_hash, vec![7u8; 32]);
}

#[test]
fn size_equals_encoded_length_of_raw_block() {
    let block = IndexedBlock::from_header_and_txns(header(9, vec![]), three());
    let size = block.size();
    let raw = block.into_raw_block();
    assert_eq!(size, raw.encode().len());
    assert_eq!(size, raw.encoded_len());
}

#[test]
fn size_of_block_without_transactions() {
    let block = IndexedBlock::from_header_and_txns(header(9, vec![]), vec![]);
    let raw = block.clone().into_raw_block();
    let header_bytes = raw.block_header.as_ref().unwrap().encode();
    // the key of field 2, a two-byte length, then the header
    assert!(header_bytes.len() >= 128 && header_bytes.len() < 16384);
    assert_eq!(block.size(), 1 + 2 + header_bytes.len());
}

#[test]
fn merkle_root_is_deterministic() {
    let block = IndexedBlock::from_header_and_txns(header(9, vec![]), three());
    let a = merkle_root(&block.transactions);
    let b = merkle_root(&block.transactions);
    assert!(a.same_as(&b));
}

#[test]
fn swapping_transactions_changes_root() {
    let mut txs: Vec<IndexedTransaction> = three().into_iter().map(IndexedTransaction::from_raw).collect();
    let before = merkle_root(&txs);
    txs.swap(0, 2);
    let after = merkle_root(&txs);
    assert!(!before.same_as(&after));
}

#[test]
fn equality_is_by_header_hash() {
    let a = IndexedBlock::from_header_and_txns(header(9, vec![]), three());
    let mut b = a.clone();
    b.transactions.clear();
    assert!(a == b);
    let c = IndexedBlock::from_header_and_txns(header(10, vec![]), three());
    assert!(a != c);
}
