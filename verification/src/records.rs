use vstd::prelude::*;

verus! {

/// The kind of a benchmarked object.
#[derive(Clone, Copy, Debug, PartialEq, Eq, Structural)]
pub enum ObjectType {
    Block,
    Transaction,
}

impl ObjectType {
    /// The tag under which this kind is reported to the metrics sink.
    pub fn into(self) -> (r: &'static str)
        ensures
            self is Block ==> r@ == "block"@,
            self is Transaction ==> r@ == "transaction"@,
    {
        match self {
            ObjectType::Block => "block",
            ObjectType::Transaction => "transaction",
        }
    }
}

/// Which compressor a measurement reports on.
#[derive(Clone, Copy, Debug, PartialEq, Eq, Structural)]
pub enum Variant {
    /// The record itself, uncompressed.
    Raw,
    /// Compressed with no dictionary.
    NoDict,
    /// Compressed with the current dictionary generation.
    Dict,
}

/// The mathematical content of one measurement.
pub struct MeasurementModel {
    pub object_id: Seq<u8>,
    pub object_kind: ObjectType,
    pub variant: Variant,
    pub size: nat,
    pub timestamp: nat,
}

/// One emitted fact: the size in bytes of one object under one compressor
/// variant. The object id is an ASCII hex string held as bytes.
pub struct Measurement {
    pub object_id: Vec<u8>,
    pub object_kind: ObjectType,
    pub variant: Variant,
    pub size: usize,
    pub timestamp: u64,
}

impl View for Measurement {
    type V = MeasurementModel;

    open spec fn view(&self) -> MeasurementModel {
        MeasurementModel {
            object_id: self.object_id@,
            object_kind: self.object_kind,
            variant: self.variant,
            size: self.size as nat,
            timestamp: self.timestamp as nat,
        }
    }
}

impl DeepView for Measurement {
    type V = MeasurementModel;

    open spec fn deep_view(&self) -> MeasurementModel {
        self.view()
    }
}

/// The ASCII code of the lower-case hex digit for a value below sixteen.
pub open spec fn hex_digit(n: u8) -> u8
    recommends
        n < 16,
{
    if n < 10 {
        (48 + n) as u8
    } else {
        (87 + n) as u8
    }
}

/// The lower-case hex encoding of a byte sequence, two digits per byte.
pub open spec fn hex_bytes(b: Seq<u8>) -> Seq<u8>
    decreases b.len(),
{
    if b.len() == 0 {
        Seq::empty()
    } else {
        seq![hex_digit(b.first() / 16), hex_digit(b.first() % 16)] + hex_bytes(b.drop_first())
    }
}

/// Hashes are displayed in reverse byte order, as the record source prints
/// them; an object id is the hex encoding of the reversed hash bytes.
pub open spec fn id_hex_of(hash: Seq<u8>) -> Seq<u8> {
    hex_bytes(hash.reverse())
}

proof fn lemma_hex_bytes_push(b: Seq<u8>, x: u8)
    ensures
        hex_bytes(b.push(x)) == hex_bytes(b) + seq![hex_digit(x / 16), hex_digit(x % 16)],
    decreases b.len(),
{
    let s = b.push(x);
    if b.len() == 0 {
        assert(s.first() == x);
        assert(s.drop_first() =~= Seq::<u8>::empty());
        assert(hex_bytes(s.drop_first()) == Seq::<u8>::empty());
        assert(hex_bytes(s) == seq![hex_digit(s.first() / 16), hex_digit(s.first() % 16)]
            + hex_bytes(s.drop_first()));
        assert(hex_bytes(s) =~= hex_bytes(b) + seq![hex_digit(x / 16), hex_digit(x % 16)]);
    } else {
        assert(s.first() == b.first());
        assert(s.drop_first() =~= b.drop_first().push(x));
        lemma_hex_bytes_push(b.drop_first(), x);
        assert(hex_bytes(s) == seq![hex_digit(s.first() / 16), hex_digit(s.first() % 16)]
            + hex_bytes(s.drop_first()));
        assert(hex_bytes(s) =~= hex_bytes(b) + seq![hex_digit(x / 16), hex_digit(x % 16)]);
    }
}

/// Hex-encode a hash in display order: last byte first, two lower-case
/// digits per byte.
pub fn hash_to_hex(hash: &Vec<u8>) -> (r: Vec<u8>)
    ensures
        r@ == id_hex_of(hash@),
{
    let n = hash.len();
    let mut r: Vec<u8> = Vec::new();
    assert(hash@.reverse().take(0) =~= Seq::empty());
    for i in 0..n
        invariant
            n == hash@.len(),
            r@ == hex_bytes(hash@.reverse().take(i as int)),
    {
        let byte = hash[n - 1 - i];
        assert(hash@.reverse()[i as int] == byte);
        r.push(hex_digit_exec(byte / 16));
        r.push(hex_digit_exec(byte % 16));
        proof {
            lemma_hex_bytes_push(hash@.reverse().take(i as int), byte);
            assert(hash@.reverse().take(i + 1) =~= hash@.reverse().take(i as int).push(byte));
            assert(r@ =~= hex_bytes(hash@.reverse().take(i + 1)));
        }
    }
    proof {
        assert(hash@.reverse().take(n as int) =~= hash@.reverse());
    }
    r
}

/// An owned copy of a byte vector.
pub(crate) fn copy_bytes(v: &Vec<u8>) -> (r: Vec<u8>)
    ensures
        r@ == v@,
{
    let n = v.len();
    let mut r: Vec<u8> = Vec::new();
    for i in 0..n
        invariant
            n == v@.len(),
            r@ == v@.take(i as int),
    {
        r.push(v[i]);
        proof {
            assert(r@ =~= v@.take(i + 1));
        }
    }
    proof {
        assert(v@.take(n as int) =~= v@);
    }
    r
}

/// Whether two byte vectors hold the same bytes.
pub(crate) fn bytes_eq(a: &Vec<u8>, b: &Vec<u8>) -> (r: bool)
    ensures
        r == (a@ == b@),
{
    if a.len() != b.len() {
        return false;
    }
    let n = a.len();
    for i in 0..n
        invariant
            n == a@.len(),
            n == b@.len(),
            forall|j: int| 0 <= j < i ==> a@[j] == b@[j],
    {
        if a[i] != b[i] {
            return false;
        }
    }
    proof {
        assert(a@ =~= b@);
    }
    true
}

/// The ASCII code of the lower-case hex digit for a value below sixteen.
fn hex_digit_exec(n: u8) -> (r: u8)
    requires
        n < 16,
    ensures
        r == hex_digit(n),
{
    if n < 10 {
        48 + n
    } else {
        87 + n
    }
}

} // verus!
