use vstd::prelude::*;

use crate::records::{bytes_eq, copy_bytes, Measurement, MeasurementModel, ObjectType, Variant};

verus! {

/// One record's measurements grouped as the metrics sink takes them: one
/// point with three size fields, tagged with the object's id and kind.
pub struct SinkPoint {
    pub object_id: Vec<u8>,
    pub object_kind: ObjectType,
    pub raw_size: usize,
    pub wo_dict_size: usize,
    pub w_dict_size: usize,
}

/// Whether three measurements form one record's complete emission: the
/// variants in emission order — raw, no dictionary, dictionary — all tagged
/// with one object.
pub open spec fn well_grouped(ms: Seq<MeasurementModel>) -> bool {
    &&& ms.len() == 3
    &&& ms[0].variant is Raw
    &&& ms[1].variant is NoDict
    &&& ms[2].variant is Dict
    &&& ms[1].object_id == ms[0].object_id
    &&& ms[2].object_id == ms[0].object_id
    &&& ms[1].object_kind == ms[0].object_kind
    &&& ms[2].object_kind == ms[0].object_kind
}

/// Fold one record's three measurements into the sink's one-point-per-record
/// shape; yields nothing exactly when the measurements are not one record's
/// complete raw/no-dictionary/dictionary emission.
pub fn sink_point(ms: &Vec<Measurement>) -> (r: Option<SinkPoint>)
    ensures
        r is Some <==> well_grouped(ms.deep_view()),
        r matches Some(p) ==> {
            &&& p.object_id@ == ms.deep_view()[0].object_id
            &&& p.object_kind == ms.deep_view()[0].object_kind
            &&& p.raw_size as nat == ms.deep_view()[0].size
            &&& p.wo_dict_size as nat == ms.deep_view()[1].size
            &&& p.w_dict_size as nat == ms.deep_view()[2].size
        },
{
    if ms.len() != 3 {
        return None;
    }
    let m0 = &ms[0];
    let m1 = &ms[1];
    let m2 = &ms[2];
    let variants_ok = matches!(m0.variant, Variant::Raw) && matches!(m1.variant, Variant::NoDict)
        && matches!(m2.variant, Variant::Dict);
    let same_object = bytes_eq(&m1.object_id, &m0.object_id) && bytes_eq(
        &m2.object_id,
        &m0.object_id,
    ) && m1.object_kind == m0.object_kind && m2.object_kind == m0.object_kind;
    if variants_ok && same_object {
        Some(
            SinkPoint {
                object_id: copy_bytes(&m0.object_id),
                object_kind: m0.object_kind,
                raw_size: m0.size,
                wo_dict_size: m1.size,
                w_dict_size: m2.size,
            },
        )
    } else {
        None
    }
}

/// A compressed size as parts per thousand of the raw size. A zero-length
/// record has no ratio: its measurements are size-only and the ratio is
/// omitted.
pub fn ratio_permille(compressed_size: usize, raw_size: usize) -> (r: Option<u128>)
    ensures
        r is None <==> raw_size == 0,
        raw_size > 0 ==> r == Some::<u128>((compressed_size * 1000 / raw_size as int) as u128),
{
    if raw_size == 0 {
        None
    } else {
        Some(compressed_size as u128 * 1000 / raw_size as u128)
    }
}

} // verus!
