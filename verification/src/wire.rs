use vstd::prelude::*;

use crate::errors::BenchError;

verus! {

/// The two message kinds a push feed may deliver.
#[derive(Clone, Copy, Debug, PartialEq, Eq, Structural)]
pub enum FeedTopic {
    RawTx,
    RawBlock,
}

/// The topic bytes announcing a raw transaction payload.
pub open spec fn rawtx_topic() -> Seq<u8> {
    seq![114u8, 97u8, 119u8, 116u8, 120u8]
}

/// The topic bytes announcing a raw block payload.
pub open spec fn rawblock_topic() -> Seq<u8> {
    seq![114u8, 97u8, 119u8, 98u8, 108u8, 111u8, 99u8, 107u8]
}

/// Classify a feed message by its topic. Any topic other than the two known
/// ones is a protocol violation and fails fast rather than being ignored.
pub fn classify_topic(topic: &Vec<u8>) -> (r: Result<FeedTopic, BenchError>)
    ensures
        r == Ok::<FeedTopic, BenchError>(FeedTopic::RawTx) <==> topic@ == rawtx_topic(),
        r == Ok::<FeedTopic, BenchError>(FeedTopic::RawBlock) <==> topic@ == rawblock_topic(),
        r is Err <==> topic@ != rawtx_topic() && topic@ != rawblock_topic(),
        r is Err ==> r == Err::<FeedTopic, BenchError>(BenchError::ProtocolViolation),
{
    if topic.len() == 5 && topic[0] == 114 && topic[1] == 97 && topic[2] == 119 && topic[3] == 116
        && topic[4] == 120 {
        proof {
            assert(topic@ =~= rawtx_topic());
        }
        Ok(FeedTopic::RawTx)
    } else if topic.len() == 8 && topic[0] == 114 && topic[1] == 97 && topic[2] == 119 && topic[3]
        == 98 && topic[4] == 108 && topic[5] == 111 && topic[6] == 99 && topic[7] == 107 {
        proof {
            assert(topic@ =~= rawblock_topic());
        }
        Ok(FeedTopic::RawBlock)
    } else {
        proof {
            assert(topic@ != rawtx_topic());
            assert(topic@ != rawblock_topic());
        }
        Err(BenchError::ProtocolViolation)
    }
}

/// Whether the bytes are a well-formed consensus-encoded transaction.
pub uninterp spec fn tx_decodes(raw: Seq<u8>) -> bool;

/// The 32-byte transaction id of a well-formed consensus-encoded transaction,
/// a function of the raw bytes alone.
pub uninterp spec fn txid_of(raw: Seq<u8>) -> Seq<u8>;

/// Whether the bytes are a well-formed consensus-encoded block.
pub uninterp spec fn block_decodes(raw: Seq<u8>) -> bool;

/// The 32-byte block hash of a well-formed consensus-encoded block, a
/// function of the raw bytes alone.
pub uninterp spec fn block_id_of(raw: Seq<u8>) -> Seq<u8>;

/// Relies on `bitcoin::consensus::encode::deserialize::<Transaction>`, which
/// succeeds exactly on well-formed encodings consuming the whole input, and
/// on `Transaction::compute_txid`, the 32-byte double-SHA-256 transaction id,
/// a deterministic function of the transaction alone.
#[verifier::external_body]
fn wire_tx_id(raw: &Vec<u8>) -> (r: Option<Vec<u8>>)
    ensures
        r is Some <==> tx_decodes(raw@),
        r matches Some(v) ==> v@ == txid_of(raw@) && v@.len() == 32,
{
    bitcoin::consensus::encode::deserialize::<bitcoin::Transaction>(raw.as_slice()).ok().map(
        |t: bitcoin::Transaction| {
            let id: bitcoin::Txid = t.compute_txid();
            <bitcoin::Txid as bitcoin::hashes::Hash>::to_byte_array(id).to_vec()
        },
    )
}

/// Relies on `bitcoin::consensus::encode::deserialize::<Block>`, which
/// succeeds exactly on well-formed encodings consuming the whole input, and
/// on `Block::block_hash`, the 32-byte double-SHA-256 of the block header, a
/// deterministic function of the block alone.
#[verifier::external_body]
fn wire_block_id(raw: &Vec<u8>) -> (r: Option<Vec<u8>>)
    ensures
        r is Some <==> block_decodes(raw@),
        r matches Some(v) ==> v@ == block_id_of(raw@) && v@.len() == 32,
{
    bitcoin::consensus::encode::deserialize::<bitcoin::Block>(raw.as_slice()).ok().map(
        |b: bitcoin::Block| {
            let id: bitcoin::BlockHash = b.block_hash();
            <bitcoin::BlockHash as bitcoin::hashes::Hash>::to_byte_array(id).to_vec()
        },
    )
}

/// The transaction id of a raw transaction payload, or `ProtocolViolation`
/// exactly when the payload is not a well-formed transaction encoding.
pub fn decode_tx_id(raw: &Vec<u8>) -> (r: Result<Vec<u8>, BenchError>)
    ensures
        r is Ok <==> tx_decodes(raw@),
        r matches Ok(v) ==> v@ == txid_of(raw@) && v@.len() == 32,
        r matches Err(e) ==> e == BenchError::ProtocolViolation,
{
    match wire_tx_id(raw) {
        Some(v) => Ok(v),
        None => Err(BenchError::ProtocolViolation),
    }
}

/// The block hash of a raw block payload, or `ProtocolViolation` exactly
/// when the payload is not a well-formed block encoding.
pub fn decode_block_id(raw: &Vec<u8>) -> (r: Result<Vec<u8>, BenchError>)
    ensures
        r is Ok <==> block_decodes(raw@),
        r matches Ok(v) ==> v@ == block_id_of(raw@) && v@.len() == 32,
        r matches Err(e) ==> e == BenchError::ProtocolViolation,
{
    match wire_block_id(raw) {
        Some(v) => Ok(v),
        None => Err(BenchError::ProtocolViolation),
    }
}

} // verus!
