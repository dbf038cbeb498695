//! The wire schema model: the binary message shapes exchanged at process
//! boundaries, maintained in lockstep with the schema definition. The
//! metric value carries two generations of encoding for three shapes:
//! parallel-array "legacy" forms and struct-of-pairs "current" forms.

use vstd::prelude::*;
use crate::scalars::{FloatBits, WireTimestamp, Sample, Bucket, Quantile};

verus! {

/// The wire form of a dynamically typed value. An absent or unrecognized
/// kind is representable: that is the soft-failure case on decode.
#[derive(Debug, PartialEq)]
pub struct WireValue {
    pub kind: Option<WireValueKind>,
}

/// The variants a wire value can carry.
#[derive(Debug, PartialEq)]
pub enum WireValueKind {
    RawBytes(Vec<u8>),
    Timestamp(WireTimestamp),
    Integer(i64),
    Float(FloatBits),
    Boolean(bool),
    Mapping(WireValueMap),
    Array(WireValueArray),
    /// The payload is a placeholder enumeration on the wire; its numeric
    /// value carries no information.
    Null(i32),
}

/// A wire mapping from string key to value; keys unique.
#[derive(Debug, PartialEq)]
pub struct WireValueMap {
    pub fields: Vec<(String, WireValue)>,
}

/// A wire sequence of values, order significant.
#[derive(Debug, PartialEq)]
pub struct WireValueArray {
    pub items: Vec<WireValue>,
}

/// The wire form of a metric kind.
#[derive(Clone, Copy, Debug, PartialEq, Eq, Structural)]
pub enum WireMetricKind {
    Incremental,
    Absolute,
}

/// The wire form of a distribution statistic.
#[derive(Clone, Copy, Debug, PartialEq, Eq, Structural)]
pub enum WireStatisticKind {
    Histogram,
    Summary,
}

/// The wire forms a metric value can take. The numbered pairs of variants
/// are the two schema generations of one canonical shape: the `1` forms
/// hold parallel arrays, the `2` forms hold sequences of pairs. Both are
/// accepted on read; only the `2` forms are ever written.
#[derive(Debug, PartialEq)]
#[allow(inconsistent_fields)]
pub enum WireMetricValue {
    Counter { value: FloatBits },
    Gauge { value: FloatBits },
    StringSet { values: Vec<String> },
    Distribution1 { values: Vec<FloatBits>, sample_rates: Vec<u32>, statistic: WireStatisticKind },
    Distribution2 { samples: Vec<Sample>, statistic: WireStatisticKind },
    AggregatedHistogram1 { buckets: Vec<FloatBits>, counts: Vec<u32>, count: u32, sum: FloatBits },
    AggregatedHistogram2 { buckets: Vec<Bucket>, count: u32, sum: FloatBits },
    AggregatedSummary1 { quantiles: Vec<FloatBits>, values: Vec<FloatBits>, count: u32, sum: FloatBits },
    AggregatedSummary2 { quantiles: Vec<Quantile>, count: u32, sum: FloatBits },
}

/// The wire form of a metric. An empty namespace and an empty tag mapping
/// stand for absence; the value field is required by the protocol, and
/// its absence is a protocol violation.
#[derive(Debug, PartialEq)]
pub struct WireMetric {
    pub name: String,
    pub namespace: String,
    pub timestamp: Option<WireTimestamp>,
    pub tags: Vec<(String, String)>,
    pub kind: WireMetricKind,
    pub value: Option<WireMetricValue>,
}

/// An opaque byte payload on the wire.
#[derive(Debug, PartialEq)]
pub struct WireChunk {
    pub bytes: Vec<u8>,
}

/// A framed unit on the wire; same shape as a chunk.
#[derive(Debug, PartialEq)]
pub struct WireFrame {
    pub bytes: Vec<u8>,
}

/// A structured log event on the wire; keys unique.
#[derive(Debug, PartialEq)]
pub struct WireLog {
    pub fields: Vec<(String, WireValue)>,
}

/// The inner event union of the wire envelope.
#[derive(Debug, PartialEq)]
pub enum WireEvent {
    Chunk(WireChunk),
    Frame(WireFrame),
    Log(WireLog),
    Metric(WireMetric),
}

/// The wire envelope. An envelope with no inner event is a protocol
/// violation: decoding it fails fatally.
#[derive(Debug, PartialEq)]
pub struct WireEventWrapper {
    pub event: Option<WireEvent>,
}

/// The mathematical model of a [`WireValue`].
#[verifier::ext_equal]
pub struct WireValueModel {
    pub kind: Option<WireValueKindModel>,
}

/// The mathematical model of a [`WireValueKind`]. The map and array
/// wrappers carry no content beyond their entries, so the model holds the
/// entry sequences directly.
#[verifier::ext_equal]
pub enum WireValueKindModel {
    RawBytes(Seq<u8>),
    Timestamp(WireTimestamp),
    Integer(i64),
    Float(FloatBits),
    Boolean(bool),
    Mapping(Seq<(Seq<char>, WireValueModel)>),
    Array(Seq<WireValueModel>),
    Null(i32),
}

impl View for WireValue {
    type V = WireValueModel;

    open spec fn view(&self) -> WireValueModel
        decreases self,
    {
        WireValueModel {
            kind: match self.kind {
                None => None,
                Some(WireValueKind::RawBytes(b)) => Some(WireValueKindModel::RawBytes(b@)),
                Some(WireValueKind::Timestamp(t)) => Some(WireValueKindModel::Timestamp(t)),
                Some(WireValueKind::Integer(i)) => Some(WireValueKindModel::Integer(i)),
                Some(WireValueKind::Float(f)) => Some(WireValueKindModel::Float(f)),
                Some(WireValueKind::Boolean(b)) => Some(WireValueKindModel::Boolean(b)),
                Some(WireValueKind::Mapping(m)) => Some(
                    WireValueKindModel::Mapping(lift_wire_fields(m.fields@)),
                ),
                Some(WireValueKind::Array(a)) => Some(
                    WireValueKindModel::Array(lift_wire_values(a.items@)),
                ),
                Some(WireValueKind::Null(n)) => Some(WireValueKindModel::Null(n)),
            },
        }
    }
}

/// The mathematical model of a sequence of wire values.
pub open spec fn lift_wire_values(s: Seq<WireValue>) -> Seq<WireValueModel>
    decreases s,
{
    Seq::new(
        s.len(),
        |i: int| if 0 <= i < s.len() { s[i]@ } else { WireValueModel { kind: None } },
    )
}

/// The mathematical model of a sequence of named wire values.
pub open spec fn lift_wire_fields(s: Seq<(String, WireValue)>) -> Seq<(Seq<char>, WireValueModel)>
    decreases s,
{
    Seq::new(
        s.len(),
        |i: int| if 0 <= i < s.len() {
            (s[i].0@, s[i].1@)
        } else {
            (Seq::empty(), WireValueModel { kind: None })
        },
    )
}

/// The mathematical model of a [`WireMetricValue`].
#[verifier::ext_equal]
#[allow(inconsistent_fields)]
pub enum WireMetricValueModel {
    Counter { value: FloatBits },
    Gauge { value: FloatBits },
    StringSet { values: Seq<Seq<char>> },
    Distribution1 { values: Seq<FloatBits>, sample_rates: Seq<u32>, statistic: WireStatisticKind },
    Distribution2 { samples: Seq<Sample>, statistic: WireStatisticKind },
    AggregatedHistogram1 { buckets: Seq<FloatBits>, counts: Seq<u32>, count: u32, sum: FloatBits },
    AggregatedHistogram2 { buckets: Seq<Bucket>, count: u32, sum: FloatBits },
    AggregatedSummary1 { quantiles: Seq<FloatBits>, values: Seq<FloatBits>, count: u32, sum: FloatBits },
    AggregatedSummary2 { quantiles: Seq<Quantile>, count: u32, sum: FloatBits },
}

impl View for WireMetricValue {
    type V = WireMetricValueModel;

    open spec fn view(&self) -> WireMetricValueModel {
        match self {
            WireMetricValue::Counter { value } => WireMetricValueModel::Counter { value: *value },
            WireMetricValue::Gauge { value } => WireMetricValueModel::Gauge { value: *value },
            WireMetricValue::StringSet { values } => WireMetricValueModel::StringSet {
                values: crate::lift_strings(values@),
            },
            WireMetricValue::Distribution1 { values, sample_rates, statistic } =>
                WireMetricValueModel::Distribution1 {
                    values: values@,
                    sample_rates: sample_rates@,
                    statistic: *statistic,
                },
            WireMetricValue::Distribution2 { samples, statistic } =>
                WireMetricValueModel::Distribution2 {
                    samples: samples@,
                    statistic: *statistic,
                },
            WireMetricValue::AggregatedHistogram1 { buckets, counts, count, sum } =>
                WireMetricValueModel::AggregatedHistogram1 {
                    buckets: buckets@,
                    counts: counts@,
                    count: *count,
                    sum: *sum,
                },
            WireMetricValue::AggregatedHistogram2 { buckets, count, sum } =>
                WireMetricValueModel::AggregatedHistogram2 {
                    buckets: buckets@,
                    count: *count,
                    sum: *sum,
                },
            WireMetricValue::AggregatedSummary1 { quantiles, values, count, sum } =>
                WireMetricValueModel::AggregatedSummary1 {
                    quantiles: quantiles@,
                    values: values@,
                    count: *count,
                    sum: *sum,
                },
            WireMetricValue::AggregatedSummary2 { quantiles, count, sum } =>
                WireMetricValueModel::AggregatedSummary2 {
                    quantiles: quantiles@,
                    count: *count,
                    sum: *sum,
                },
        }
    }
}

/// The mathematical model of a [`WireMetric`].
#[verifier::ext_equal]
pub struct WireMetricModel {
    pub name: Seq<char>,
    pub namespace: Seq<char>,
    pub timestamp: Option<WireTimestamp>,
    pub tags: Seq<(Seq<char>, Seq<char>)>,
    pub kind: WireMetricKind,
    pub value: Option<WireMetricValueModel>,
}

impl View for WireMetric {
    type V = WireMetricModel;

    open spec fn view(&self) -> WireMetricModel {
        WireMetricModel {
            name: self.name@,
            namespace: self.namespace@,
            timestamp: self.timestamp,
            tags: crate::lift_string_pairs(self.tags@),
            kind: self.kind,
            value: match self.value {
                Some(v) => Some(v@),
                None => None,
            },
        }
    }
}

/// The mathematical model of a [`WireEvent`].
#[verifier::ext_equal]
pub enum WireEventModel {
    Chunk(Seq<u8>),
    Frame(Seq<u8>),
    Log(Seq<(Seq<char>, WireValueModel)>),
    Metric(WireMetricModel),
}

impl View for WireEvent {
    type V = WireEventModel;

    open spec fn view(&self) -> WireEventModel {
        match self {
            WireEvent::Chunk(c) => WireEventModel::Chunk(c.bytes@),
            WireEvent::Frame(f) => WireEventModel::Frame(f.bytes@),
            WireEvent::Log(l) => WireEventModel::Log(lift_wire_fields(l.fields@)),
            WireEvent::Metric(m) => WireEventModel::Metric(m@),
        }
    }
}

/// The mathematical model of a [`WireEventWrapper`].
#[verifier::ext_equal]
pub struct WireEventWrapperModel {
    pub event: Option<WireEventModel>,
}

impl View for WireEventWrapper {
    type V = WireEventWrapperModel;

    open spec fn view(&self) -> WireEventWrapperModel {
        WireEventWrapperModel {
            event: match self.event {
                Some(e) => Some(e@),
                None => None,
            },
        }
    }
}

} // verus!
