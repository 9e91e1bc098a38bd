use dictbench::engine::{build_measurements, Engine};
use dictbench::errors::BenchError;
use dictbench::records::{hash_to_hex, ObjectType, Variant};
use dictbench::sink::{ratio_permille, sink_point};

fn training_samples(tag: u8) -> Vec<Vec<u8>> {
    let mut samples = Vec::new();
    for i in 0..200u32 {
        let mut s = Vec::new();
        for j in 0..100u32 {
            s.push(tag.wrapping_add((i.wrapping_mul(7).wrapping_add(j) % 31) as u8));
        }
        samples.push(s);
    }
    samples
}

fn compressible_record() -> Vec<u8> {
    let mut data = Vec::new();
    for i in 0..1000u32 {
        data.push((i % 16) as u8);
    }
    data
}

#[test]
fn benchmark_sizes_match_the_codec() {
    let dict = dictbench::codec::train_dictionary(&training_samples(1), 1024).unwrap();
    let mut engine = Engine::new(3, 16, dict.clone()).unwrap();
    let id = vec![0xabu8; 32];
    let data = compressible_record();
    let ms = engine.benchmark(&id, ObjectType::Transaction, &data, 7).unwrap();

    assert_eq!(ms.len(), 3);
    assert_eq!(ms[0].variant, Variant::Raw);
    assert_eq!(ms[1].variant, Variant::NoDict);
    assert_eq!(ms[2].variant, Variant::Dict);
    assert_eq!(ms[0].size, data.len());
    assert_eq!(ms[0].timestamp, 7);
    assert_eq!(ms[0].object_kind, ObjectType::Transaction);
    assert_eq!(ms[0].object_id, hash_to_hex(&id));

    // The compressed sizes are what the codec itself produces, not echoes of
    // the input.
    let plain = zstd::bulk::Compressor::new(3).unwrap().compress(&data).unwrap();
    assert_eq!(ms[1].size, plain.len());
    let dictv = zstd::bulk::Compressor::with_dictionary(3, &dict)
        .unwrap()
        .compress(&data)
        .unwrap();
    assert_eq!(ms[2].size, dictv.len());
    assert!(ms[1].size < data.len());
}

#[test]
fn benchmark_is_deterministic_for_fixed_level_and_input() {
    let dict = dictbench::codec::train_dictionary(&training_samples(2), 1024).unwrap();
    let mut e1 = Engine::new(5, 16, dict.clone()).unwrap();
    let mut e2 = Engine::new(5, 7, dict).unwrap();
    let id = vec![1u8; 32];
    let data = compressible_record();
    let m1 = e1.benchmark(&id, ObjectType::Block, &data, 1).unwrap();
    let m2 = e2.benchmark(&id, ObjectType::Block, &data, 1).unwrap();
    for k in 0..3 {
        assert_eq!(m1[k].size, m2[k].size);
    }
    let m1again = e1.benchmark(&id, ObjectType::Block, &data, 2).unwrap();
    for k in 0..3 {
        assert_eq!(m1[k].size, m1again[k].size);
    }
}

#[test]
fn empty_record_is_size_only() {
    let mut engine = Engine::new(3, 16, Vec::new()).unwrap();
    let id = vec![0u8; 32];
    let empty: Vec<u8> = Vec::new();
    let ms = engine.benchmark(&id, ObjectType::Transaction, &empty, 0).unwrap();
    assert_eq!(ms[0].size, 0);
    // The ratio is undefined for a zero-length record and is omitted.
    assert_eq!(ratio_permille(ms[1].size, ms[0].size), None);
}

#[test]
fn retrain_fires_at_the_reset_period_and_replaces_the_dictionary() {
    let startup = dictbench::codec::train_dictionary(&training_samples(3), 1024).unwrap();
    let mut engine = Engine::new(3, 16, startup.clone()).unwrap();

    for _ in 0..15 {
        assert!(!engine.observe_block());
    }
    // Block sixteen brings the counter to one reset period.
    assert!(engine.observe_block());
    assert_eq!(engine.counter(), 16);

    // Retraining on the window ending at block sixteen replaces the whole
    // dictionary generation.
    let window16 = training_samples(4);
    engine.retrain(&window16, 1024).unwrap();
    assert_eq!(engine.generation(), 1);
    let expected = dictbench::codec::train_dictionary(&window16, 1024).unwrap();
    assert_eq!(engine.dictionary(), &expected);
    assert_ne!(engine.dictionary(), &startup);
}

#[test]
fn failed_retrain_keeps_the_previous_generation() {
    let startup = dictbench::codec::train_dictionary(&training_samples(5), 1024).unwrap();
    let mut engine = Engine::new(3, 16, startup.clone()).unwrap();
    let poor = vec![vec![1u8, 2, 3]];
    assert_eq!(engine.retrain(&poor, 1024), Err(BenchError::InsufficientSamples));
    assert_eq!(engine.generation(), 0);
    assert_eq!(engine.dictionary(), &startup);
}

#[test]
fn measurements_fold_into_one_sink_point() {
    let id = vec![0x11u8; 32];
    let ms = build_measurements(hash_to_hex(&id), ObjectType::Block, 10, &vec![1, 2], &vec![3], 5);
    let p = sink_point(&ms).unwrap();
    assert_eq!(p.object_id, hash_to_hex(&id));
    assert_eq!(p.object_kind, ObjectType::Block);
    assert_eq!(p.raw_size, 10);
    assert_eq!(p.wo_dict_size, 2);
    assert_eq!(p.w_dict_size, 1);
}

#[test]
fn incomplete_measurement_groups_are_rejected() {
    let id = vec![0x11u8; 32];
    let mut ms = build_measurements(hash_to_hex(&id), ObjectType::Block, 10, &vec![1, 2], &vec![3], 5);
    ms.swap(1, 2);
    assert!(sink_point(&ms).is_none());
    ms.swap(1, 2);
    ms.pop();
    assert!(sink_point(&ms).is_none());
}

#[test]
fn ratio_is_exact_parts_per_thousand() {
    assert_eq!(ratio_permille(5, 2), Some(2500));
    assert_eq!(ratio_permille(0, 5), Some(0));
    assert_eq!(ratio_permille(333, 1000), Some(333));
    assert_eq!(ratio_permille(7, 0), None);
}

#[test]
fn object_types_carry_their_sink_tags() {
    assert_eq!(ObjectType::Block.into(), "block");
    assert_eq!(ObjectType::Transaction.into(), "transaction");
}

#[test]
fn error_labels_are_stable() {
    assert_eq!(BenchError::EmptyWindow.label(), "empty window");
    assert_eq!(BenchError::InsufficientSamples.label(), "insufficient samples");
    assert_eq!(BenchError::ProtocolViolation.label(), "protocol violation");
    assert_eq!(BenchError::SourceUnavailable.label(), "source unavailable");
    assert_eq!(BenchError::SinkUnavailable.label(), "sink unavailable");
    assert_eq!(BenchError::CompressorUnavailable.label(), "compressor unavailable");
}
