use vstd::prelude::*;

use crate::errors::BenchError;

verus! {

#[verifier::external_type_specification]
#[verifier::external_body]
pub struct ExCompressor<'a>(zstd::bulk::Compressor<'a>);

/// The dictionary a compression context was loaded with; the empty sequence
/// stands for no dictionary, as in the codec itself (a context constructed
/// without a dictionary is one loaded with an empty one).
pub uninterp spec fn handle_dict(c: zstd::bulk::Compressor<'static>) -> Seq<u8>;

/// The compression level a compression context was constructed with.
pub uninterp spec fn handle_level(c: zstd::bulk::Compressor<'static>) -> int;

/// The bytes the codec produces for `data` under dictionary `dict` at `level`.
/// The codec is deterministic: for a fixed library version the output depends
/// on these three values alone.
pub uninterp spec fn compressed_of(dict: Seq<u8>, level: int, data: Seq<u8>) -> Seq<u8>;

/// The dictionary the trainer derives from `samples` at a target size of
/// `capacity` bytes, or `None` where the samples do not suffice. The trainer
/// is deterministic for fixed inputs.
pub uninterp spec fn trained_dict(samples: Seq<Seq<u8>>, capacity: int) -> Option<Seq<u8>>;

/// Relies on `zstd::bulk::Compressor::with_dictionary`: it builds a context
/// holding exactly the given dictionary and level (`Compressor::new` is the
/// same call with an empty dictionary).
#[verifier::external_body]
pub(crate) fn make_compressor(level: i32, dict: &Vec<u8>) -> (r: Option<
    zstd::bulk::Compressor<'static>,
>)
    ensures
        r matches Some(c) ==> handle_dict(c) == dict@ && handle_level(c) == level as int,
{
    zstd::bulk::Compressor::with_dictionary(level, dict.as_slice()).ok()
}

/// Relies on `zstd::bulk::Compressor::compress`: it leaves the context's
/// dictionary and level as they were, and its output is a function of the
/// dictionary, the level and the input bytes alone.
#[verifier::external_body]
pub(crate) fn compress_bytes(c: &mut zstd::bulk::Compressor<'static>, data: &Vec<u8>) -> (r: Option<
    Vec<u8>,
>)
    ensures
        handle_dict(*final(c)) == handle_dict(*old(c)),
        handle_level(*final(c)) == handle_level(*old(c)),
        r matches Some(v) ==> v@ == compressed_of(
            handle_dict(*old(c)),
            handle_level(*old(c)),
            data@,
        ),
{
    c.compress(data.as_slice()).ok()
}

/// Relies on `zstd::dict::from_samples` (ZDICT_trainFromBuffer): training is
/// deterministic for fixed samples and capacity, and the dictionary it
/// returns fits in `capacity` bytes.
#[verifier::external_body]
fn train_from_samples(samples: &Vec<Vec<u8>>, capacity: usize) -> (r: Option<Vec<u8>>)
    ensures
        r is Some <==> trained_dict(samples.deep_view(), capacity as int) is Some,
        r matches Some(d) ==> Some(d@) == trained_dict(samples.deep_view(), capacity as int)
            && d@.len() <= capacity,
{
    zstd::dict::from_samples(samples.as_slice(), capacity).ok()
}

/// Derive a shared dictionary of at most `dictionary_size` bytes from a
/// training set; fails with `InsufficientSamples` exactly when the trainer
/// cannot meet the request from the given samples.
pub fn train_dictionary(samples: &Vec<Vec<u8>>, dictionary_size: usize) -> (r: Result<
    Vec<u8>,
    BenchError,
>)
    ensures
        r is Ok <==> trained_dict(samples.deep_view(), dictionary_size as int) is Some,
        r matches Ok(d) ==> Some(d@) == trained_dict(samples.deep_view(), dictionary_size as int)
            && d@.len() <= dictionary_size,
        r matches Err(e) ==> e == BenchError::InsufficientSamples,
{
    match train_from_samples(samples, dictionary_size) {
        Some(d) => Ok(d),
        None => Err(BenchError::InsufficientSamples),
    }
}

/// Training is a pure function of the training set and the target size:
/// rerunning it on an identical training set and target yields the identical
/// dictionary, and in particular one of identical size.
pub proof fn lemma_train_deterministic(s1: Seq<Seq<u8>>, s2: Seq<Seq<u8>>, capacity: int)
    requires
        s1 == s2,
    ensures
        trained_dict(s1, capacity) == trained_dict(s2, capacity),
        trained_dict(s1, capacity) matches Some(d) ==> trained_dict(
            s2,
            capacity,
        ).unwrap().len() == d.len(),
{
}

} // verus!
