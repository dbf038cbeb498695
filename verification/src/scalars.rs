//! Shared scalar and pair types used by both the canonical model and the
//! wire model.

use vstd::prelude::*;

verus! {

/// A 64-bit floating-point payload, carried as its raw IEEE 754 bit
/// pattern. The codec is a pure transcoder: it never computes with these
/// values, it only moves them, so holding the bits keeps every round trip
/// exact (including payloads that are not equal to themselves as floats).
#[derive(Clone, Copy, Debug, PartialEq, Eq, Structural)]
pub struct FloatBits(pub u64);

/// A UTC instant at nanosecond resolution, as carried by the canonical
/// model: whole seconds since the Unix epoch plus a nanosecond part.
#[derive(Clone, Copy, Debug, PartialEq, Eq, Structural)]
pub struct Timestamp {
    pub seconds: i64,
    pub nanos: u32,
}

/// A UTC instant as carried on the wire: the nanosecond part is a signed
/// 32-bit field there.
#[derive(Clone, Copy, Debug, PartialEq, Eq, Structural)]
pub struct WireTimestamp {
    pub seconds: i64,
    pub nanos: i32,
}

/// One distribution sample: a value and the number of times it was seen.
#[derive(Clone, Copy, Debug, PartialEq, Eq, Structural)]
pub struct Sample {
    pub value: FloatBits,
    pub rate: u32,
}

/// One histogram bucket: an upper limit and the count of samples below it.
#[derive(Clone, Copy, Debug, PartialEq, Eq, Structural)]
pub struct Bucket {
    pub upper_limit: FloatBits,
    pub count: u32,
}

/// One summary quantile: the quantile point and the value observed there.
#[derive(Clone, Copy, Debug, PartialEq, Eq, Structural)]
pub struct Quantile {
    pub quantile: FloatBits,
    pub value: FloatBits,
}

impl Timestamp {
    /// The canonical reading of a wire timestamp: the nanosecond field is
    /// reinterpreted as unsigned, bit for bit.
    pub open spec fn spec_from_wire(w: WireTimestamp) -> Timestamp {
        Timestamp { seconds: w.seconds, nanos: w.nanos as u32 }
    }
}

impl WireTimestamp {
    /// The wire form of a canonical timestamp: the nanosecond part is
    /// reinterpreted as signed, bit for bit.
    pub open spec fn spec_from_canonical(t: Timestamp) -> WireTimestamp {
        WireTimestamp { seconds: t.seconds, nanos: t.nanos as i32 }
    }
}

/// Reading a wire timestamp and writing it back reproduces it exactly:
/// the signed/unsigned reinterpretation of the nanosecond field is a
/// bijection.
pub proof fn lemma_wire_timestamp_round_trip(w: WireTimestamp)
    ensures
        WireTimestamp::spec_from_canonical(Timestamp::spec_from_wire(w)) == w,
{
    let n = w.nanos;
    assert(n as u32 as i32 == n) by (bit_vector);
}

/// Writing a canonical timestamp and reading it back reproduces it
/// exactly.
pub proof fn lemma_canonical_timestamp_round_trip(t: Timestamp)
    ensures
        Timestamp::spec_from_wire(WireTimestamp::spec_from_canonical(t)) == t,
{
    let n = t.nanos;
    assert(n as i32 as u32 == n) by (bit_vector);
}

} // verus!
