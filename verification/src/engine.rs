use vstd::prelude::*;

use crate::codec::{
    compress_bytes, compressed_of, handle_dict, handle_level, make_compressor, train_dictionary,
    trained_dict,
};
use crate::errors::BenchError;
use crate::records::{
    bytes_eq, copy_bytes, hash_to_hex, id_hex_of, Measurement, MeasurementModel, ObjectType,
    Variant,
};
use crate::wire::{block_decodes, block_id_of, decode_block_id, decode_tx_id, tx_decodes, txid_of};

verus! {

/// The mathematical state of the benchmark engine: the current dictionary
/// generation, the retrain counter and the configuration that drives the
/// retraining policy.
pub struct EngineModel {
    /// The bytes of the current dictionary generation; empty before any
    /// dictionary was trained.
    pub dict: Seq<u8>,
    /// The compression level both compressors run at.
    pub level: int,
    /// How many blocks the engine has observed since it started.
    pub counter: nat,
    /// How many times the dictionary has been replaced.
    pub generation: nat,
    /// Blocks between retrains; always positive.
    pub reset_period: nat,
    /// The tip hash seen by the latest poll, if any.
    pub last_tip: Option<Seq<u8>>,
}

/// Installing a freshly trained dictionary: the dictionary is replaced
/// wholesale and the generation advances; nothing else moves.
pub open spec fn install_spec(m: EngineModel, d: Seq<u8>) -> EngineModel {
    EngineModel { dict: d, generation: m.generation + 1, ..m }
}

/// Observing one block: the retrain counter advances; nothing else moves.
pub open spec fn observe_spec(m: EngineModel) -> EngineModel {
    EngineModel { counter: m.counter + 1, ..m }
}

/// Whether the block being observed triggers a retrain: the counter it
/// brings the engine to is a multiple of the reset period.
pub open spec fn observe_flag(m: EngineModel) -> bool {
    ((m.counter + 1) as int) % (m.reset_period as int) == 0
}

/// One poll of the source's tip: the engine remembers the tip it saw.
pub open spec fn poll_step(m: EngineModel, tip: Seq<u8>) -> EngineModel {
    EngineModel { last_tip: Some(tip), ..m }
}

/// Whether a polled tip is news: it differs from the last tip seen.
pub open spec fn poll_changed(m: EngineModel, tip: Seq<u8>) -> bool {
    m.last_tip != Some(tip)
}

/// Retraining on a sample window: the trained dictionary is installed, or
/// the engine keeps the previous generation where training fails.
pub open spec fn retrain_spec(m: EngineModel, samples: Seq<Seq<u8>>, capacity: int) -> EngineModel {
    match trained_dict(samples, capacity) {
        Some(d) => install_spec(m, d),
        None => m,
    }
}

/// The three measurements one benchmarking step emits for one record, in
/// emission order: raw, no dictionary, dictionary.
pub open spec fn measurement_triple(
    id_hex: Seq<u8>,
    kind: ObjectType,
    raw_size: nat,
    no_dict_size: nat,
    dict_size: nat,
    now: nat,
) -> Seq<MeasurementModel> {
    seq![
        MeasurementModel {
            object_id: id_hex,
            object_kind: kind,
            variant: Variant::Raw,
            size: raw_size,
            timestamp: now,
        },
        MeasurementModel {
            object_id: id_hex,
            object_kind: kind,
            variant: Variant::NoDict,
            size: no_dict_size,
            timestamp: now,
        },
        MeasurementModel {
            object_id: id_hex,
            object_kind: kind,
            variant: Variant::Dict,
            size: dict_size,
            timestamp: now,
        },
    ]
}

/// What one benchmarking step of an engine in state `m` emits for a record
/// with hash `id`, kind `kind` and bytes `data`.
pub open spec fn bench_models(
    m: EngineModel,
    id: Seq<u8>,
    kind: ObjectType,
    data: Seq<u8>,
    now: nat,
) -> Seq<MeasurementModel> {
    measurement_triple(
        id_hex_of(id),
        kind,
        data.len(),
        compressed_of(Seq::empty(), m.level, data).len(),
        compressed_of(m.dict, m.level, data).len(),
        now,
    )
}

/// The streaming benchmark engine: a pair of long-lived compression
/// contexts — one bound to the current dictionary generation, one with no
/// dictionary — plus the retrain counter and poll state that drive it.
pub struct Engine {
    level: i32,
    reset_period: u64,
    counter: u64,
    generation: u64,
    dict: Vec<u8>,
    last_tip: Option<Vec<u8>>,
    plain_ctx: zstd::bulk::Compressor<'static>,
    dict_ctx: zstd::bulk::Compressor<'static>,
}

impl View for Engine {
    type V = EngineModel;

    closed spec fn view(&self) -> EngineModel {
        EngineModel {
            dict: self.dict@,
            level: self.level as int,
            counter: self.counter as nat,
            generation: self.generation as nat,
            reset_period: self.reset_period as nat,
            last_tip: match self.last_tip {
                Some(t) => Some(t@),
                None => None,
            },
        }
    }
}

impl Engine {
    /// The engine's compression contexts hold exactly the dictionary and
    /// level its model names, and the reset period is positive.
    pub closed spec fn wf(&self) -> bool {
        &&& handle_dict(self.plain_ctx) == Seq::<u8>::empty()
        &&& handle_level(self.plain_ctx) == self.level as int
        &&& handle_dict(self.dict_ctx) == self.dict@
        &&& handle_level(self.dict_ctx) == self.level as int
        &&& self.reset_period > 0
    }

    /// Build an engine around an initial dictionary: both compression
    /// contexts are constructed up front, at the given level.
    pub fn new(level: i32, reset_period: u64, dict: Vec<u8>) -> (r: Result<Engine, BenchError>)
        requires
            reset_period > 0,
        ensures
            r matches Ok(e) ==> e.wf() && e@ == (EngineModel {
                dict: dict@,
                level: level as int,
                counter: 0,
                generation: 0,
                reset_period: reset_period as nat,
                last_tip: None,
            }),
            r matches Err(e) ==> e == BenchError::CompressorUnavailable,
    {
        let empty: Vec<u8> = Vec::new();
        let plain = make_compressor(level, &empty);
        let with_dict = make_compressor(level, &dict);
        match (plain, with_dict) {
            (Some(plain_ctx), Some(dict_ctx)) => Ok(
                Engine {
                    level,
                    reset_period,
                    counter: 0,
                    generation: 0,
                    dict,
                    last_tip: None,
                    plain_ctx,
                    dict_ctx,
                },
            ),
            _ => Err(BenchError::CompressorUnavailable),
        }
    }

    /// The current dictionary generation's bytes.
    pub fn dictionary(&self) -> (r: &Vec<u8>)
        ensures
            r@ == self@.dict,
    {
        &self.dict
    }

    /// How many blocks the engine has observed.
    pub fn counter(&self) -> (r: u64)
        ensures
            r as nat == self@.counter,
    {
        self.counter
    }

    /// How many times the dictionary has been replaced.
    pub fn generation(&self) -> (r: u64)
        ensures
            r as nat == self@.generation,
    {
        self.generation
    }

    /// Run one record through both compressors and emit its three
    /// measurements; the engine's model — dictionary, generation, counter —
    /// is left exactly as it was, so a step never sees a half-replaced
    /// generation.
    pub fn benchmark(&mut self, id_hash: &Vec<u8>, kind: ObjectType, data: &Vec<u8>, now: u64) -> (r:
        Result<Vec<Measurement>, BenchError>)
        requires
            old(self).wf(),
        ensures
            final(self).wf(),
            final(self)@ == old(self)@,
            r matches Ok(v) ==> v.deep_view() == bench_models(
                old(self)@,
                id_hash@,
                kind,
                data@,
                now as nat,
            ),
            r matches Err(e) ==> e == BenchError::CompressorUnavailable,
    {
        let out_plain = compress_bytes(&mut self.plain_ctx, data);
        let out_dict = compress_bytes(&mut self.dict_ctx, data);
        match (out_plain, out_dict) {
            (Some(plain), Some(dict)) => {
                let id_hex = hash_to_hex(id_hash);
                Ok(build_measurements(id_hex, kind, data.len(), &plain, &dict, now))
            },
            _ => Err(BenchError::CompressorUnavailable),
        }
    }

    /// Observe one block for the retraining policy: advance the counter and
    /// report whether a retrain is due, exactly when the counter reaches a
    /// multiple of the reset period.
    pub fn observe_block(&mut self) -> (retrain: bool)
        requires
            old(self).wf(),
            old(self)@.counter + 1 <= u64::MAX,
        ensures
            final(self).wf(),
            final(self)@ == observe_spec(old(self)@),
            retrain == observe_flag(old(self)@),
    {
        self.counter = self.counter + 1;
        self.counter % self.reset_period == 0
    }

    /// Publish a freshly trained dictionary: a new dictionary-bound context
    /// is fully constructed before it replaces the old one, and the
    /// generation advances. On failure the previous generation stays.
    pub fn install_dictionary(&mut self, dict: Vec<u8>) -> (r: Result<(), BenchError>)
        requires
            old(self).wf(),
            old(self)@.generation + 1 <= u64::MAX,
        ensures
            final(self).wf(),
            r is Ok ==> final(self)@ == install_spec(old(self)@, dict@),
            r matches Err(e) ==> final(self)@ == old(self)@ && e
                == BenchError::CompressorUnavailable,
    {
        match make_compressor(self.level, &dict) {
            Some(ctx) => {
                self.dict_ctx = ctx;
                self.dict = dict;
                self.generation = self.generation + 1;
                Ok(())
            },
            None => Err(BenchError::CompressorUnavailable),
        }
    }

    /// Retrain on a gathered sample window and install the result; where the
    /// samples do not suffice, the engine keeps the previous-generation
    /// dictionary and reports `InsufficientSamples`.
    pub fn retrain(&mut self, samples: &Vec<Vec<u8>>, dictionary_size: usize) -> (r: Result<
        (),
        BenchError,
    >)
        requires
            old(self).wf(),
            old(self)@.generation + 1 <= u64::MAX,
        ensures
            final(self).wf(),
            trained_dict(samples.deep_view(), dictionary_size as int) is None ==> r == Err::<
                (),
                BenchError,
            >(BenchError::InsufficientSamples) && final(self)@ == old(self)@,
            trained_dict(samples.deep_view(), dictionary_size as int) is Some ==> (r is Ok
                && final(self)@ == retrain_spec(
                old(self)@,
                samples.deep_view(),
                dictionary_size as int,
            )) || (r == Err::<(), BenchError>(BenchError::CompressorUnavailable) && final(self)@
                == old(self)@),
    {
        match train_dictionary(samples, dictionary_size) {
            Ok(d) => {
                let ghost dv: Seq<u8> = d@;
                let res = self.install_dictionary(d);
                proof {
                    assert(trained_dict(samples.deep_view(), dictionary_size as int) == Some(dv));
                }
                res
            },
            Err(e) => Err(e),
        }
    }

    /// Poll-mode tip check: remember the tip just seen and report whether it
    /// is news; an unchanged tip is not re-benchmarked.
    pub fn poll_tip(&mut self, tip: Vec<u8>) -> (changed: bool)
        requires
            old(self).wf(),
        ensures
            final(self).wf(),
            final(self)@ == poll_step(old(self)@, tip@),
            changed == poll_changed(old(self)@, tip@),
    {
        let changed = match &self.last_tip {
            None => true,
            Some(t) => !bytes_eq(t, &tip),
        };
        self.last_tip = Some(tip);
        changed
    }

    /// One push-mode transaction cycle: decode the payload's transaction id
    /// and benchmark the payload. A transaction never moves the retrain
    /// counter, and an undecodable payload is a protocol violation.
    pub fn process_tx(&mut self, payload: &Vec<u8>, now: u64) -> (r: Result<
        Vec<Measurement>,
        BenchError,
    >)
        requires
            old(self).wf(),
        ensures
            final(self).wf(),
            final(self)@ == old(self)@,
            !tx_decodes(payload@) ==> r == Err::<Vec<Measurement>, BenchError>(
                BenchError::ProtocolViolation,
            ),
            tx_decodes(payload@) ==> (r matches Ok(v) && v.deep_view() == bench_models(
                old(self)@,
                txid_of(payload@),
                ObjectType::Transaction,
                payload@,
                now as nat,
            )) || r == Err::<Vec<Measurement>, BenchError>(BenchError::CompressorUnavailable),
    {
        match decode_tx_id(payload) {
            Ok(id) => self.benchmark(&id, ObjectType::Transaction, payload, now),
            Err(e) => Err(e),
        }
    }

    /// Open one push-mode block cycle: decode the block's own hash — the
    /// authoritative id for this cycle — and observe the block for the
    /// retraining policy. Where `retrain` comes back true, the caller must
    /// gather a window ending at this block and retrain before benchmarking.
    pub fn begin_block(&mut self, payload: &Vec<u8>) -> (r: Result<BlockStart, BenchError>)
        requires
            old(self).wf(),
            old(self)@.counter + 1 <= u64::MAX,
        ensures
            final(self).wf(),
            !block_decodes(payload@) ==> r == Err::<BlockStart, BenchError>(
                BenchError::ProtocolViolation,
            ) && final(self)@ == old(self)@,
            block_decodes(payload@) ==> (r matches Ok(s) && s.id@ == block_id_of(payload@)
                && s.retrain == observe_flag(old(self)@) && final(self)@ == observe_spec(
                old(self)@,
            )),
    {
        match decode_block_id(payload) {
            Ok(id) => {
                let retrain = self.observe_block();
                Ok(BlockStart { id, retrain })
            },
            Err(e) => Err(e),
        }
    }
}

/// The opening of a block cycle: the block's own hash, and whether the
/// retraining policy interposes before this block is benchmarked.
pub struct BlockStart {
    pub id: Vec<u8>,
    pub retrain: bool,
}

/// Assemble the three measurements for one record from the two compressors'
/// outputs, in emission order: raw, no dictionary, dictionary.
pub fn build_measurements(
    object_id: Vec<u8>,
    kind: ObjectType,
    raw_size: usize,
    plain_out: &Vec<u8>,
    dict_out: &Vec<u8>,
    now: u64,
) -> (r: Vec<Measurement>)
    ensures
        r.deep_view() == measurement_triple(
            object_id@,
            kind,
            raw_size as nat,
            plain_out@.len() as nat,
            dict_out@.len() as nat,
            now as nat,
        ),
{
    let id_no_dict = copy_bytes(&object_id);
    let id_dict = copy_bytes(&object_id);
    let mut r: Vec<Measurement> = Vec::new();
    r.push(
        Measurement {
            object_id,
            object_kind: kind,
            variant: Variant::Raw,
            size: raw_size,
            timestamp: now,
        },
    );
    r.push(
        Measurement {
            object_id: id_no_dict,
            object_kind: kind,
            variant: Variant::NoDict,
            size: plain_out.len(),
            timestamp: now,
        },
    );
    r.push(
        Measurement {
            object_id: id_dict,
            object_kind: kind,
            variant: Variant::Dict,
            size: dict_out.len(),
            timestamp: now,
        },
    );
    proof {
        assert(r.deep_view() =~= measurement_triple(
            object_id@,
            kind,
            raw_size as nat,
            plain_out@.len() as nat,
            dict_out@.len() as nat,
            now as nat,
        ));
    }
    r
}

/// Law: for every record, the measured sizes — raw included — are
/// nonnegative, and benchmarking is deterministic: two engines holding the
/// same dictionary at the same level emit identical measurements for the
/// same record, whatever their counters, generations or poll states.
pub proof fn lemma_benchmark_deterministic(
    m1: EngineModel,
    m2: EngineModel,
    id: Seq<u8>,
    kind: ObjectType,
    data: Seq<u8>,
    now: nat,
)
    requires
        m1.dict == m2.dict,
        m1.level == m2.level,
    ensures
        bench_models(m1, id, kind, data, now) == bench_models(m2, id, kind, data, now),
        forall|i: int|
            0 <= i < 3 ==> #[trigger] bench_models(m1, id, kind, data, now)[i].size >= 0,
{
    assert(bench_models(m1, id, kind, data, now) =~= bench_models(m2, id, kind, data, now));
}

/// Law: a retrain that fires at a counter multiple of the reset period
/// installs a generation one higher, holding exactly the new dictionary, and
/// the very next benchmarking step's dictionary-variant measurement is taken
/// under that new dictionary — while any single step, by `benchmark`'s own
/// contract, runs entirely under one generation.
pub proof fn lemma_retrain_visible_next_step(
    m: EngineModel,
    d: Seq<u8>,
    id: Seq<u8>,
    kind: ObjectType,
    data: Seq<u8>,
    now: nat,
)
    ensures
        install_spec(m, d).generation == m.generation + 1,
        install_spec(m, d).dict == d,
        bench_models(install_spec(m, d), id, kind, data, now)[2].size == compressed_of(
            d,
            m.level,
            data,
        ).len(),
{
}

/// Law: the retraining policy fires exactly at counter multiples of the
/// reset period — observing the block that brings the counter to
/// `k * reset_period` reports that a retrain is due.
pub proof fn lemma_retrain_period(m: EngineModel, k: nat)
    requires
        m.reset_period > 0,
        m.counter + 1 == k * m.reset_period,
    ensures
        observe_flag(m),
{
    vstd::arithmetic::div_mod::lemma_mod_multiples_basic(k as int, m.reset_period as int);
}

/// Law: an unchanged tip is never news twice — after any poll of `tip`, a
/// second poll of the same `tip` reports no change, so a block's content is
/// benchmarked at most once in poll mode.
pub proof fn lemma_poll_dedup(m: EngineModel, tip: Seq<u8>)
    ensures
        !poll_changed(poll_step(m, tip), tip),
{
}

} // verus!
