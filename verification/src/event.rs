//! The canonical in-memory event model: the entities the pipeline works
//! with between stages. Pure data definitions, together with their
//! mathematical models (`Seq`-based mirror types) and views.

use vstd::prelude::*;
use crate::scalars::{FloatBits, Timestamp, Sample, Bucket, Quantile};

verus! {

/// How a metric's value is to be combined with earlier observations.
#[derive(Clone, Copy, Debug, PartialEq, Eq, Structural)]
pub enum MetricKind {
    Incremental,
    Absolute,
}

/// Which statistic a distribution is summarising.
#[derive(Clone, Copy, Debug, PartialEq, Eq, Structural)]
pub enum StatisticKind {
    Histogram,
    Summary,
}

/// A dynamically typed, arbitrarily nested value: the payload of log
/// fields. Containers own their children; decode only ever builds trees,
/// so plain owned indirection suffices.
#[derive(Debug, PartialEq)]
pub enum Value {
    Bytes(Vec<u8>),
    Timestamp(Timestamp),
    Integer(i64),
    Float(FloatBits),
    Boolean(bool),
    /// Keys are unique; entries are kept in lexicographic key order so
    /// that serialization is deterministic.
    Mapping(Vec<(String, Value)>),
    Array(Vec<Value>),
    Null,
}

/// The mathematical model of a [`Value`]: the same tree with sequences in
/// place of vectors and strings.
#[verifier::ext_equal]
pub enum ValueModel {
    Bytes(Seq<u8>),
    Timestamp(Timestamp),
    Integer(i64),
    Float(FloatBits),
    Boolean(bool),
    Mapping(Seq<(Seq<char>, ValueModel)>),
    Array(Seq<ValueModel>),
    Null,
}

impl View for Value {
    type V = ValueModel;

    open spec fn view(&self) -> ValueModel
        decreases self,
    {
        match self {
            Value::Bytes(b) => ValueModel::Bytes(b@),
            Value::Timestamp(t) => ValueModel::Timestamp(*t),
            Value::Integer(i) => ValueModel::Integer(*i),
            Value::Float(f) => ValueModel::Float(*f),
            Value::Boolean(b) => ValueModel::Boolean(*b),
            Value::Mapping(fields) => ValueModel::Mapping(lift_value_fields(fields@)),
            Value::Array(items) => ValueModel::Array(lift_values(items@)),
            Value::Null => ValueModel::Null,
        }
    }
}

/// The mathematical model of a sequence of values, element by element.
pub open spec fn lift_values(s: Seq<Value>) -> Seq<ValueModel>
    decreases s,
{
    Seq::new(
        s.len(),
        |i: int| if 0 <= i < s.len() { s[i]@ } else { ValueModel::Null },
    )
}

/// The identifying part of a metric.
#[derive(Debug, PartialEq)]
pub struct MetricSeries {
    pub name: String,
    /// Absent and empty are canonically equivalent on the wire; the
    /// canonical form is absence.
    pub namespace: Option<String>,
    /// Key/value tags; absent and empty are canonically equivalent on the
    /// wire. Keys are unique.
    pub tags: Option<Vec<(String, String)>>,
}

/// The observed part of a metric.
#[derive(Debug, PartialEq)]
pub struct MetricData {
    pub timestamp: Option<Timestamp>,
    pub kind: MetricKind,
    pub value: MetricValue,
}

/// The shapes a metric observation can take.
#[derive(Debug, PartialEq)]
pub enum MetricValue {
    Counter { value: FloatBits },
    Gauge { value: FloatBits },
    /// A duplicate-eliminating, unordered collection of strings. The
    /// vector holds each member once; its order carries no meaning.
    StringSet { values: Vec<String> },
    Distribution { statistic: StatisticKind, samples: Vec<Sample> },
    AggregatedHistogram { buckets: Vec<Bucket>, count: u32, sum: FloatBits },
    AggregatedSummary { quantiles: Vec<Quantile>, count: u32, sum: FloatBits },
}

/// A canonical metric event.
#[derive(Debug, PartialEq)]
pub struct Metric {
    pub series: MetricSeries,
    pub data: MetricData,
}

/// Pipeline-internal bookkeeping attached to events. It is never carried
/// over the wire: encoding discards it and decoding attaches the default.
#[derive(Clone, Copy, Debug, PartialEq, Eq, Structural)]
pub struct EventMetadata {}

impl Default for EventMetadata {
    fn default() -> (r: Self)
        ensures
            r == (EventMetadata {}),
    {
        EventMetadata {}
    }
}

/// A structured log event: a mapping from field name to value, keys
/// unique, plus pipeline-internal metadata.
#[derive(Debug, PartialEq)]
pub struct LogEvent {
    pub fields: Vec<(String, Value)>,
    pub metadata: EventMetadata,
}

/// The canonical event union moved through the pipeline.
#[derive(Debug, PartialEq)]
pub enum Event {
    Chunk(Vec<u8>, EventMetadata),
    Frame(Vec<u8>, EventMetadata),
    Log(LogEvent),
    Metric(Metric),
}

/// The mathematical model of a sequence of named values.
pub open spec fn lift_value_fields(s: Seq<(String, Value)>) -> Seq<(Seq<char>, ValueModel)>
    decreases s,
{
    Seq::new(
        s.len(),
        |i: int| if 0 <= i < s.len() { (s[i].0@, s[i].1@) } else { (Seq::empty(), ValueModel::Null) },
    )
}

/// The mathematical model of a [`MetricValue`].
#[verifier::ext_equal]
pub enum MetricValueModel {
    Counter { value: FloatBits },
    Gauge { value: FloatBits },
    StringSet { values: Seq<Seq<char>> },
    Distribution { statistic: StatisticKind, samples: Seq<Sample> },
    AggregatedHistogram { buckets: Seq<Bucket>, count: u32, sum: FloatBits },
    AggregatedSummary { quantiles: Seq<Quantile>, count: u32, sum: FloatBits },
}

/// The mathematical model of a [`Metric`], flattened to one record.
#[verifier::ext_equal]
pub struct MetricModel {
    pub name: Seq<char>,
    pub namespace: Option<Seq<char>>,
    pub timestamp: Option<Timestamp>,
    pub tags: Option<Seq<(Seq<char>, Seq<char>)>>,
    pub kind: MetricKind,
    pub value: MetricValueModel,
}

impl View for MetricValue {
    type V = MetricValueModel;

    open spec fn view(&self) -> MetricValueModel {
        match self {
            MetricValue::Counter { value } => MetricValueModel::Counter { value: *value },
            MetricValue::Gauge { value } => MetricValueModel::Gauge { value: *value },
            MetricValue::StringSet { values } => MetricValueModel::StringSet {
                values: crate::lift_strings(values@),
            },
            MetricValue::Distribution { statistic, samples } => MetricValueModel::Distribution {
                statistic: *statistic,
                samples: samples@,
            },
            MetricValue::AggregatedHistogram { buckets, count, sum } =>
                MetricValueModel::AggregatedHistogram {
                    buckets: buckets@,
                    count: *count,
                    sum: *sum,
                },
            MetricValue::AggregatedSummary { quantiles, count, sum } =>
                MetricValueModel::AggregatedSummary {
                    quantiles: quantiles@,
                    count: *count,
                    sum: *sum,
                },
        }
    }
}

impl View for Metric {
    type V = MetricModel;

    open spec fn view(&self) -> MetricModel {
        MetricModel {
            name: self.series.name@,
            namespace: match self.series.namespace {
                Some(ns) => Some(ns@),
                None => None,
            },
            timestamp: self.data.timestamp,
            tags: match self.series.tags {
                Some(tags) => Some(crate::lift_string_pairs(tags@)),
                None => None,
            },
            kind: self.data.kind,
            value: self.data.value@,
        }
    }
}

/// The mathematical model of an [`Event`]. The metadata carries no
/// content, so the model omits it.
#[verifier::ext_equal]
pub enum EventModel {
    Chunk(Seq<u8>),
    Frame(Seq<u8>),
    Log(Seq<(Seq<char>, ValueModel)>),
    Metric(MetricModel),
}

impl View for LogEvent {
    type V = Seq<(Seq<char>, ValueModel)>;

    open spec fn view(&self) -> Seq<(Seq<char>, ValueModel)> {
        lift_value_fields(self.fields@)
    }
}

impl View for Event {
    type V = EventModel;

    open spec fn view(&self) -> EventModel {
        match self {
            Event::Chunk(bytes, _) => EventModel::Chunk(bytes@),
            Event::Frame(bytes, _) => EventModel::Frame(bytes@),
            Event::Log(log) => EventModel::Log(log@),
            Event::Metric(metric) => EventModel::Metric(metric@),
        }
    }
}

} // verus!
