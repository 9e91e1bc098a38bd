use bitcoin::absolute::LockTime;
use bitcoin::block::{Header, Version as BlockVersion};
use bitcoin::consensus::encode::serialize;
use bitcoin::hashes::Hash as ByteHash;
use bitcoin::transaction::Version;
use bitcoin::{
    Amount, Block, BlockHash, CompactTarget, OutPoint, ScriptBuf, Sequence, Transaction, TxIn,
    TxMerkleNode, TxOut, Txid, Witness,
};

use dictbench::engine::Engine;
use dictbench::errors::BenchError;
use dictbench::records::{hash_to_hex, ObjectType};
use dictbench::wire::{classify_topic, decode_block_id, decode_tx_id, FeedTopic};

fn sample_tx() -> Transaction {
    Transaction {
        version: Version::TWO,
        lock_time: LockTime::ZERO,
        input: vec![TxIn {
            previous_output: OutPoint { txid: Txid::all_zeros(), vout: 0 },
            script_sig: ScriptBuf::new(),
            sequence: Sequence::MAX,
            witness: Witness::new(),
        }],
        output: vec![TxOut {
            value: Amount::from_sat(50_000),
            script_pubkey: ScriptBuf::new(),
        }],
    }
}

fn sample_block() -> Block {
    Block {
        header: Header {
            version: BlockVersion::TWO,
            prev_blockhash: BlockHash::all_zeros(),
            merkle_root: TxMerkleNode::all_zeros(),
            time: 1_600_000_000,
            bits: CompactTarget::from_consensus(0x1d00ffff),
            nonce: 42,
        },
        txdata: vec![sample_tx()],
    }
}

#[test]
fn topics_classify_and_fail_fast() {
    assert_eq!(classify_topic(&b"rawtx".to_vec()), Ok(FeedTopic::RawTx));
    assert_eq!(classify_topic(&b"rawblock".to_vec()), Ok(FeedTopic::RawBlock));
    assert_eq!(classify_topic(&b"rawtxx".to_vec()), Err(BenchError::ProtocolViolation));
    assert_eq!(classify_topic(&Vec::new()), Err(BenchError::ProtocolViolation));
}

#[test]
fn transaction_ids_come_from_the_wire_bytes() {
    let tx = sample_tx();
    let raw = serialize(&tx);
    let id = decode_tx_id(&raw).unwrap();
    assert_eq!(id.len(), 32);
    assert_eq!(id, tx.compute_txid().to_byte_array().to_vec());
    // The hex id matches the id the record source would print.
    let hex = String::from_utf8(hash_to_hex(&id)).unwrap();
    assert_eq!(hex, tx.compute_txid().to_string());
}

#[test]
fn block_ids_come_from_the_wire_bytes() {
    let block = sample_block();
    let raw = serialize(&block);
    let id = decode_block_id(&raw).unwrap();
    assert_eq!(id.len(), 32);
    assert_eq!(id, block.block_hash().to_byte_array().to_vec());
    let hex = String::from_utf8(hash_to_hex(&id)).unwrap();
    assert_eq!(hex, block.block_hash().to_string());
}

#[test]
fn undecodable_payloads_are_protocol_violations() {
    let garbage = vec![0xffu8, 0x00, 0x01];
    assert_eq!(decode_tx_id(&garbage), Err(BenchError::ProtocolViolation));
    assert_eq!(decode_block_id(&garbage), Err(BenchError::ProtocolViolation));
    let mut engine = Engine::new(3, 16, Vec::new()).unwrap();
    match engine.process_tx(&garbage, 0) {
        Err(e) => assert_eq!(e, BenchError::ProtocolViolation),
        Ok(_) => panic!("garbage must not benchmark"),
    }
}

#[test]
fn push_feed_runs_two_independent_cycles() {
    let mut engine = Engine::new(3, 16, Vec::new()).unwrap();

    // First message: a raw transaction. Its cycle never touches the retrain
    // counter.
    let tx = sample_tx();
    let tx_raw = serialize(&tx);
    let ms_tx = engine.process_tx(&tx_raw, 11).unwrap();
    assert_eq!(ms_tx.len(), 3);
    assert_eq!(ms_tx[0].object_kind, ObjectType::Transaction);
    assert_eq!(ms_tx[0].size, tx_raw.len());
    assert_eq!(engine.counter(), 0);

    // Second message: a raw block. Its cycle checks the retrain counter.
    let block = sample_block();
    let block_raw = serialize(&block);
    let start = engine.begin_block(&block_raw).unwrap();
    assert_eq!(engine.counter(), 1);
    assert!(!start.retrain);
    assert_eq!(start.id, block.block_hash().to_byte_array().to_vec());
    let ms_block = engine
        .benchmark(&start.id, ObjectType::Block, &block_raw, 12)
        .unwrap();
    assert_eq!(ms_block.len(), 3);
    assert_eq!(ms_block[0].object_kind, ObjectType::Block);
    assert_eq!(ms_block[0].size, block_raw.len());
    assert_eq!(
        String::from_utf8(ms_block[0].object_id.clone()).unwrap(),
        block.block_hash().to_string()
    );
}

#[test]
fn repeated_tips_are_benchmarked_once() {
    let mut engine = Engine::new(3, 16, Vec::new()).unwrap();
    let tip_a = vec![0xaau8; 32];
    let tip_b = vec![0xbbu8; 32];
    assert!(engine.poll_tip(tip_a.clone()));
    assert!(!engine.poll_tip(tip_a));
    assert!(engine.poll_tip(tip_b));
}

#[test]
fn the_first_block_of_a_unit_period_retrains() {
    let mut engine = Engine::new(3, 1, Vec::new()).unwrap();
    let block_raw = serialize(&sample_block());
    let start = engine.begin_block(&block_raw).unwrap();
    assert!(start.retrain);
}
