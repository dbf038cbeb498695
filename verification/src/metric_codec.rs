//! Transcoding between canonical metrics and wire metrics, including the
//! normalization of the two legacy parallel-array metric-value encodings
//! into the current paired-sequence form. Decoding accepts both
//! generations; encoding always emits the current one.

use vstd::prelude::*;
use crate::event::{
    Metric, MetricSeries, MetricData, MetricKind, MetricValue, StatisticKind, MetricModel,
    MetricValueModel,
};
use crate::wire::{
    WireMetric, WireMetricKind, WireMetricValue, WireStatisticKind, WireMetricModel,
    WireMetricValueModel,
};
use crate::scalars::{FloatBits, Timestamp, WireTimestamp, Sample, Bucket, Quantile};
use crate::lift_strings;

verus! {

/// The canonical reading of a wire metric kind.
pub open spec fn spec_kind_from_wire(k: WireMetricKind) -> MetricKind {
    match k {
        WireMetricKind::Incremental => MetricKind::Incremental,
        WireMetricKind::Absolute => MetricKind::Absolute,
    }
}

/// The wire form of a canonical metric kind.
pub open spec fn spec_kind_to_wire(k: MetricKind) -> WireMetricKind {
    match k {
        MetricKind::Incremental => WireMetricKind::Incremental,
        MetricKind::Absolute => WireMetricKind::Absolute,
    }
}

/// The canonical reading of a wire statistic kind.
pub open spec fn spec_stat_from_wire(s: WireStatisticKind) -> StatisticKind {
    match s {
        WireStatisticKind::Histogram => StatisticKind::Histogram,
        WireStatisticKind::Summary => StatisticKind::Summary,
    }
}

/// The wire form of a canonical statistic kind.
pub open spec fn spec_stat_to_wire(s: StatisticKind) -> WireStatisticKind {
    match s {
        StatisticKind::Histogram => WireStatisticKind::Histogram,
        StatisticKind::Summary => WireStatisticKind::Summary,
    }
}

/// Element-wise pairing of the two legacy parallel arrays of a
/// distribution. Pairing stops at the shorter array: excess trailing
/// elements of the longer one are dropped silently.
pub open spec fn spec_zip_samples(values: Seq<FloatBits>, rates: Seq<u32>) -> Seq<Sample> {
    Seq::new(
        if values.len() <= rates.len() { values.len() } else { rates.len() },
        |i: int| Sample { value: values[i], rate: rates[i] },
    )
}

/// Element-wise pairing of the legacy parallel bucket arrays of an
/// aggregated histogram; stops at the shorter array.
pub open spec fn spec_zip_buckets(limits: Seq<FloatBits>, counts: Seq<u32>) -> Seq<Bucket> {
    Seq::new(
        if limits.len() <= counts.len() { limits.len() } else { counts.len() },
        |i: int| Bucket { upper_limit: limits[i], count: counts[i] },
    )
}

/// Element-wise pairing of the legacy parallel quantile arrays of an
/// aggregated summary; stops at the shorter array.
pub open spec fn spec_zip_quantiles(quantiles: Seq<FloatBits>, values: Seq<FloatBits>) -> Seq<Quantile> {
    Seq::new(
        if quantiles.len() <= values.len() { quantiles.len() } else { values.len() },
        |i: int| Quantile { quantile: quantiles[i], value: values[i] },
    )
}

/// Duplicate elimination in first-occurrence order: what collecting a
/// wire sequence of strings into a set leaves.
pub open spec fn spec_dedup(s: Seq<Seq<char>>) -> Seq<Seq<char>>
    decreases s.len(),
{
    if s.len() == 0 {
        Seq::empty()
    } else {
        let pre = spec_dedup(s.drop_last());
        if pre.contains(s.last()) {
            pre
        } else {
            pre.push(s.last())
        }
    }
}

/// No element occurs twice.
pub open spec fn distinct_seq(s: Seq<Seq<char>>) -> bool {
    forall|i: int, j: int| 0 <= i < j < s.len() ==> s[i] != s[j]
}

/// Deduplication yields a duplicate-free sequence with exactly the
/// members of the input: a set in first-occurrence order.
pub proof fn lemma_dedup_is_set(s: Seq<Seq<char>>)
    ensures
        distinct_seq(spec_dedup(s)),
        forall|x: Seq<char>| spec_dedup(s).contains(x) <==> s.contains(x),
    decreases s.len(),
{
    if s.len() == 0 {
        assert forall|x: Seq<char>| spec_dedup(s).contains(x) <==> s.contains(x) by {
            assert(!s.contains(x));
            assert(!spec_dedup(s).contains(x));
        }
    } else {
        lemma_dedup_is_set(s.drop_last());
        let pre = spec_dedup(s.drop_last());
        let d = spec_dedup(s);
        assert forall|x: Seq<char>| d.contains(x) implies s.contains(x) by {
            if pre.contains(x) {
                assert(s.drop_last().contains(x));
                let j = choose|j: int| 0 <= j < s.drop_last().len() && s.drop_last()[j] == x;
                assert(s[j] == x);
            } else {
                assert(x == s.last());
                assert(s[s.len() - 1] == x);
            }
        }
        assert forall|x: Seq<char>| s.contains(x) implies d.contains(x) by {
            let j = choose|j: int| 0 <= j < s.len() && s[j] == x;
            if j < s.len() - 1 {
                assert(s.drop_last()[j] == x);
                assert(s.drop_last().contains(x));
                assert(pre.contains(x));
                if !pre.contains(s.last()) {
                    assert(d == pre.push(s.last()));
                    let k = choose|k: int| 0 <= k < pre.len() && pre[k] == x;
                    assert(d[k] == x);
                }
            } else {
                assert(x == s.last());
                if pre.contains(x) {
                    let k = choose|k: int| 0 <= k < pre.len() && pre[k] == x;
                    assert(d[k] == x);
                } else {
                    assert(d == pre.push(s.last()));
                    assert(d[d.len() - 1] == x);
                }
            }
        }
        if !pre.contains(s.last()) {
            assert forall|i: int, j: int| 0 <= i < j < d.len() implies d[i] != d[j] by {
                if j < d.len() - 1 {
                    assert(pre[i] == d[i] && pre[j] == d[j]);
                } else {
                    assert(d[i] == pre[i]);
                    assert(pre.contains(pre[i]));
                    assert(d[j] == s.last());
                }
            }
        }
    }
}

/// Deduplicating a sequence that is already duplicate-free leaves it
/// unchanged.
pub proof fn lemma_dedup_of_distinct(s: Seq<Seq<char>>)
    requires
        distinct_seq(s),
    ensures
        spec_dedup(s) == s,
    decreases s.len(),
{
    if s.len() == 0 {
        assert(spec_dedup(s) =~= s);
    } else {
        assert(distinct_seq(s.drop_last()));
        lemma_dedup_of_distinct(s.drop_last());
        let pre = spec_dedup(s.drop_last());
        if pre.contains(s.last()) {
            let j = choose|j: int| 0 <= j < pre.len() && pre[j] == s.last();
            assert(s[j] == s[s.len() - 1]);
            assert(false);
        }
        assert(pre.push(s.last()) =~= s);
    }
}

/// What decoding a wire metric value yields: legacy parallel arrays are
/// paired element-wise, set members are deduplicated, current forms pass
/// through.
pub open spec fn spec_decode_metric_value(v: WireMetricValueModel) -> MetricValueModel {
    match v {
        WireMetricValueModel::Counter { value } => MetricValueModel::Counter { value },
        WireMetricValueModel::Gauge { value } => MetricValueModel::Gauge { value },
        WireMetricValueModel::StringSet { values } => MetricValueModel::StringSet {
            values: spec_dedup(values),
        },
        WireMetricValueModel::Distribution1 { values, sample_rates, statistic } =>
            MetricValueModel::Distribution {
                statistic: spec_stat_from_wire(statistic),
                samples: spec_zip_samples(values, sample_rates),
            },
        WireMetricValueModel::Distribution2 { samples, statistic } =>
            MetricValueModel::Distribution {
                statistic: spec_stat_from_wire(statistic),
                samples,
            },
        WireMetricValueModel::AggregatedHistogram1 { buckets, counts, count, sum } =>
            MetricValueModel::AggregatedHistogram {
                buckets: spec_zip_buckets(buckets, counts),
                count,
                sum,
            },
        WireMetricValueModel::AggregatedHistogram2 { buckets, count, sum } =>
            MetricValueModel::AggregatedHistogram { buckets, count, sum },
        WireMetricValueModel::AggregatedSummary1 { quantiles, values, count, sum } =>
            MetricValueModel::AggregatedSummary {
                quantiles: spec_zip_quantiles(quantiles, values),
                count,
                sum,
            },
        WireMetricValueModel::AggregatedSummary2 { quantiles, count, sum } =>
            MetricValueModel::AggregatedSummary { quantiles, count, sum },
    }
}

/// What encoding a canonical metric value yields: always the current
/// (paired-sequence) wire forms, never the legacy ones.
pub open spec fn spec_encode_metric_value(v: MetricValueModel) -> WireMetricValueModel {
    match v {
        MetricValueModel::Counter { value } => WireMetricValueModel::Counter { value },
        MetricValueModel::Gauge { value } => WireMetricValueModel::Gauge { value },
        MetricValueModel::StringSet { values } => WireMetricValueModel::StringSet { values },
        MetricValueModel::Distribution { statistic, samples } =>
            WireMetricValueModel::Distribution2 {
                samples,
                statistic: spec_stat_to_wire(statistic),
            },
        MetricValueModel::AggregatedHistogram { buckets, count, sum } =>
            WireMetricValueModel::AggregatedHistogram2 { buckets, count, sum },
        MetricValueModel::AggregatedSummary { quantiles, count, sum } =>
            WireMetricValueModel::AggregatedSummary2 { quantiles, count, sum },
    }
}

/// What decoding a wire metric yields: empty namespace and empty tags
/// become absent, the timestamp is read as a UTC instant, and the value
/// is normalized. The value field is required by the protocol.
pub open spec fn spec_decode_metric(m: WireMetricModel) -> MetricModel
    recommends
        m.value is Some,
{
    MetricModel {
        name: m.name,
        namespace: if m.namespace.len() == 0 {
            None
        } else {
            Some(m.namespace)
        },
        timestamp: match m.timestamp {
            Some(t) => Some(Timestamp::spec_from_wire(t)),
            None => None,
        },
        tags: if m.tags.len() == 0 {
            None
        } else {
            Some(m.tags)
        },
        kind: spec_kind_from_wire(m.kind),
        value: spec_decode_metric_value(m.value->0),
    }
}

/// What encoding a canonical metric yields: absent namespace and tags
/// re-expand to their empty wire forms, and the value is always present
/// and always in the current generation.
pub open spec fn spec_encode_metric(m: MetricModel) -> WireMetricModel {
    WireMetricModel {
        name: m.name,
        namespace: match m.namespace {
            Some(ns) => ns,
            None => Seq::empty(),
        },
        timestamp: match m.timestamp {
            Some(t) => Some(WireTimestamp::spec_from_canonical(t)),
            None => None,
        },
        tags: match m.tags {
            Some(t) => t,
            None => Seq::empty(),
        },
        kind: spec_kind_to_wire(m.kind),
        value: Some(spec_encode_metric_value(m.value)),
    }
}

/// Copies a vector of plainly copyable elements.
fn copy_vec<T: Copy>(v: &Vec<T>) -> (r: Vec<T>)
    ensures
        r@ == v@,
{
    let mut r: Vec<T> = Vec::new();
    let mut i: usize = 0;
    while i < v.len()
        invariant
            i <= v.len(),
            r@ == v@.subrange(0, i as int),
        decreases v.len() - i,
    {
        r.push(v[i]);
        i = i + 1;
        proof {
            assert(r@ =~= v@.subrange(0, i as int));
        }
    }
    proof {
        assert(r@ =~= v@);
    }
    r
}

/// Copies a vector of strings.
fn clone_strings(v: &Vec<String>) -> (r: Vec<String>)
    ensures
        r@ == v@,
{
    let mut r: Vec<String> = Vec::new();
    let mut i: usize = 0;
    while i < v.len()
        invariant
            i <= v.len(),
            r@ == v@.subrange(0, i as int),
        decreases v.len() - i,
    {
        r.push(v[i].clone());
        i = i + 1;
        proof {
            assert(r@ =~= v@.subrange(0, i as int));
        }
    }
    proof {
        assert(r@ =~= v@);
    }
    r
}

/// Copies a vector of string pairs, preserving its mathematical model.
fn clone_string_pairs(v: &Vec<(String, String)>) -> (r: Vec<(String, String)>)
    ensures
        crate::lift_string_pairs(r@) == crate::lift_string_pairs(v@),
        r@.len() == v@.len(),
{
    let mut r: Vec<(String, String)> = Vec::new();
    let mut i: usize = 0;
    while i < v.len()
        invariant
            i <= v.len(),
            r@.len() == i as int,
            forall|j: int| 0 <= j < i as int ==> (#[trigger] r@[j]).0@ == v@[j].0@
                && r@[j].1@ == v@[j].1@,
        decreases v.len() - i,
    {
        let key = v[i].0.clone();
        let val = v[i].1.clone();
        r.push((key, val));
        i = i + 1;
    }
    proof {
        assert(crate::lift_string_pairs(r@) =~= crate::lift_string_pairs(v@));
    }
    r
}

/// Whether a string with the given content is already a member.
fn contains_string(v: &Vec<String>, s: &String) -> (r: bool)
    ensures
        r == lift_strings(v@).contains(s@),
{
    let mut i: usize = 0;
    while i < v.len()
        invariant
            i <= v.len(),
            forall|j: int| 0 <= j < i as int ==> (#[trigger] v@[j])@ != s@,
        decreases v.len() - i,
    {
        if v[i].eq(s) {
            proof {
                assert(lift_strings(v@)[i as int] == s@);
            }
            return true;
        }
        i = i + 1;
    }
    proof {
        assert forall|j: int| 0 <= j < lift_strings(v@).len() implies lift_strings(v@)[j] != s@ by {
            assert(lift_strings(v@)[j] == v@[j]@);
        }
    }
    false
}

/// Collects a wire sequence of strings into a set: duplicates are
/// eliminated, and the first occurrence of each member is kept in
/// order.
pub fn collect_string_set(values: &Vec<String>) -> (r: Vec<String>)
    ensures
        lift_strings(r@) == spec_dedup(lift_strings(values@)),
{
    let ghost full = lift_strings(values@);
    let mut accum: Vec<String> = Vec::new();
    let mut i: usize = 0;
    while i < values.len()
        invariant
            i <= values.len(),
            full == lift_strings(values@),
            lift_strings(accum@) == spec_dedup(full.subrange(0, i as int)),
        decreases values.len() - i,
    {
        proof {
            assert(full[i as int] == values@[i as int]@);
        }
        let present = contains_string(&accum, &values[i]);
        let ghost prev = accum@;
        if !present {
            let member = values[i].clone();
            accum.push(member);
        }
        i = i + 1;
        proof {
            let cur = full.subrange(0, i as int);
            assert(cur.drop_last() =~= full.subrange(0, i as int - 1));
            assert(cur.last() == full[i as int - 1]);
            if !present {
                assert(lift_strings(accum@) =~= lift_strings(prev).push(values@[i as int - 1]@));
            }
        }
    }
    proof {
        assert(full.subrange(0, i as int) =~= full);
    }
    accum
}

/// Pairs the two legacy parallel arrays of a distribution element by
/// element; excess elements of the longer array are dropped.
pub fn zip_samples(values: &Vec<FloatBits>, sample_rates: &Vec<u32>) -> (r: Vec<Sample>)
    ensures
        r@ == spec_zip_samples(values@, sample_rates@),
{
    let n: usize = if values.len() <= sample_rates.len() {
        values.len()
    } else {
        sample_rates.len()
    };
    let mut r: Vec<Sample> = Vec::new();
    let mut i: usize = 0;
    while i < n
        invariant
            i <= n,
            n <= values.len(),
            n <= sample_rates.len(),
            n == spec_zip_samples(values@, sample_rates@).len(),
            r@.len() == i as int,
            forall|j: int| 0 <= j < i as int ==> #[trigger] r@[j] == (Sample {
                value: values@[j],
                rate: sample_rates@[j],
            }),
        decreases n - i,
    {
        r.push(Sample { value: values[i], rate: sample_rates[i] });
        i = i + 1;
    }
    proof {
        assert(r@ =~= spec_zip_samples(values@, sample_rates@));
    }
    r
}

/// Pairs the legacy parallel bucket arrays of an aggregated histogram.
pub fn zip_buckets(buckets: &Vec<FloatBits>, counts: &Vec<u32>) -> (r: Vec<Bucket>)
    ensures
        r@ == spec_zip_buckets(buckets@, counts@),
{
    let n: usize = if buckets.len() <= counts.len() {
        buckets.len()
    } else {
        counts.len()
    };
    let mut r: Vec<Bucket> = Vec::new();
    let mut i: usize = 0;
    while i < n
        invariant
            i <= n,
            n <= buckets.len(),
            n <= counts.len(),
            n == spec_zip_buckets(buckets@, counts@).len(),
            r@.len() == i as int,
            forall|j: int| 0 <= j < i as int ==> #[trigger] r@[j] == (Bucket {
                upper_limit: buckets@[j],
                count: counts@[j],
            }),
        decreases n - i,
    {
        r.push(Bucket { upper_limit: buckets[i], count: counts[i] });
        i = i + 1;
    }
    proof {
        assert(r@ =~= spec_zip_buckets(buckets@, counts@));
    }
    r
}

/// Pairs the legacy parallel quantile arrays of an aggregated summary.
pub fn zip_quantiles(quantiles: &Vec<FloatBits>, values: &Vec<FloatBits>) -> (r: Vec<Quantile>)
    ensures
        r@ == spec_zip_quantiles(quantiles@, values@),
{
    let n: usize = if quantiles.len() <= values.len() {
        quantiles.len()
    } else {
        values.len()
    };
    let mut r: Vec<Quantile> = Vec::new();
    let mut i: usize = 0;
    while i < n
        invariant
            i <= n,
            n <= quantiles.len(),
            n <= values.len(),
            n == spec_zip_quantiles(quantiles@, values@).len(),
            r@.len() == i as int,
            forall|j: int| 0 <= j < i as int ==> #[trigger] r@[j] == (Quantile {
                quantile: quantiles@[j],
                value: values@[j],
            }),
        decreases n - i,
    {
        r.push(Quantile { quantile: quantiles[i], value: values[i] });
        i = i + 1;
    }
    proof {
        assert(r@ =~= spec_zip_quantiles(quantiles@, values@));
    }
    r
}

/// Reads a wire metric kind.
pub fn kind_from_wire(k: WireMetricKind) -> (r: MetricKind)
    ensures
        r == spec_kind_from_wire(k),
{
    match k {
        WireMetricKind::Incremental => MetricKind::Incremental,
        WireMetricKind::Absolute => MetricKind::Absolute,
    }
}

/// Writes a canonical metric kind.
pub fn kind_to_wire(k: MetricKind) -> (r: WireMetricKind)
    ensures
        r == spec_kind_to_wire(k),
{
    match k {
        MetricKind::Incremental => WireMetricKind::Incremental,
        MetricKind::Absolute => WireMetricKind::Absolute,
    }
}

/// Reads a wire statistic kind.
pub fn stat_from_wire(s: WireStatisticKind) -> (r: StatisticKind)
    ensures
        r == spec_stat_from_wire(s),
{
    match s {
        WireStatisticKind::Histogram => StatisticKind::Histogram,
        WireStatisticKind::Summary => StatisticKind::Summary,
    }
}

/// Writes a canonical statistic kind.
pub fn stat_to_wire(s: StatisticKind) -> (r: WireStatisticKind)
    ensures
        r == spec_stat_to_wire(s),
{
    match s {
        StatisticKind::Histogram => WireStatisticKind::Histogram,
        StatisticKind::Summary => WireStatisticKind::Summary,
    }
}

/// Decodes one wire metric value, normalizing legacy parallel arrays
/// into pairs and collecting set members into a set.
pub fn decode_metric_value(v: &WireMetricValue) -> (r: MetricValue)
    ensures
        r@ == spec_decode_metric_value(v@),
{
    match v {
        WireMetricValue::Counter { value } => MetricValue::Counter { value: *value },
        WireMetricValue::Gauge { value } => MetricValue::Gauge { value: *value },
        WireMetricValue::StringSet { values } => MetricValue::StringSet {
            values: collect_string_set(values),
        },
        WireMetricValue::Distribution1 { values, sample_rates, statistic } =>
            MetricValue::Distribution {
                statistic: stat_from_wire(*statistic),
                samples: zip_samples(values, sample_rates),
            },
        WireMetricValue::Distribution2 { samples, statistic } => MetricValue::Distribution {
            statistic: stat_from_wire(*statistic),
            samples: copy_vec(samples),
        },
        WireMetricValue::AggregatedHistogram1 { buckets, counts, count, sum } =>
            MetricValue::AggregatedHistogram {
                buckets: zip_buckets(buckets, counts),
                count: *count,
                sum: *sum,
            },
        WireMetricValue::AggregatedHistogram2 { buckets, count, sum } =>
            MetricValue::AggregatedHistogram {
                buckets: copy_vec(buckets),
                count: *count,
                sum: *sum,
            },
        WireMetricValue::AggregatedSummary1 { quantiles, values, count, sum } =>
            MetricValue::AggregatedSummary {
                quantiles: zip_quantiles(quantiles, values),
                count: *count,
                sum: *sum,
            },
        WireMetricValue::AggregatedSummary2 { quantiles, count, sum } =>
            MetricValue::AggregatedSummary {
                quantiles: copy_vec(quantiles),
                count: *count,
                sum: *sum,
            },
    }
}

/// Encodes one canonical metric value, always in the current wire
/// generation: the legacy forms are never produced.
pub fn encode_metric_value(v: &MetricValue) -> (r: WireMetricValue)
    ensures
        r@ == spec_encode_metric_value(v@),
{
    match v {
        MetricValue::Counter { value } => WireMetricValue::Counter { value: *value },
        MetricValue::Gauge { value } => WireMetricValue::Gauge { value: *value },
        MetricValue::StringSet { values } => WireMetricValue::StringSet {
            values: clone_strings(values),
        },
        MetricValue::Distribution { statistic, samples } => WireMetricValue::Distribution2 {
            samples: copy_vec(samples),
            statistic: stat_to_wire(*statistic),
        },
        MetricValue::AggregatedHistogram { buckets, count, sum } =>
            WireMetricValue::AggregatedHistogram2 {
                buckets: copy_vec(buckets),
                count: *count,
                sum: *sum,
            },
        MetricValue::AggregatedSummary { quantiles, count, sum } =>
            WireMetricValue::AggregatedSummary2 {
                quantiles: copy_vec(quantiles),
                count: *count,
                sum: *sum,
            },
    }
}

/// Decodes a wire metric into a canonical metric. The wire value field
/// is required by the protocol; the caller establishes its presence.
pub fn decode_metric(m: &WireMetric) -> (r: Metric)
    requires
        m.value is Some,
    ensures
        r@ == spec_decode_metric(m@),
{
    let name = m.name.clone();
    let namespace = if m.namespace.as_str().is_empty() {
        None
    } else {
        Some(m.namespace.clone())
    };
    let timestamp = match m.timestamp {
        Some(t) => Some(
            Timestamp { seconds: t.seconds, nanos: #[verifier::truncate] (t.nanos as u32) },
        ),
        None => None,
    };
    let tags = if m.tags.len() == 0 {
        None
    } else {
        Some(clone_string_pairs(&m.tags))
    };
    let kind = kind_from_wire(m.kind);
    let value = match &m.value {
        Some(v) => decode_metric_value(v),
        None => unreached(),
    };
    let r = Metric {
        series: MetricSeries { name, namespace, tags },
        data: MetricData { timestamp, kind, value },
    };
    proof {
        assert(r@ =~= spec_decode_metric(m@));
    }
    r
}

/// Encodes a canonical metric as a wire metric: absent namespace and
/// tags re-expand to their empty wire forms, and the value is always
/// present, always in the current generation.
pub fn encode_metric(metric: &Metric) -> (r: WireMetric)
    ensures
        r@ == spec_encode_metric(metric@),
        r.value is Some,
{
    let name = metric.series.name.clone();
    let namespace = match &metric.series.namespace {
        Some(ns) => ns.clone(),
        None => String::new(),
    };
    let timestamp = match metric.data.timestamp {
        Some(t) => Some(
            WireTimestamp { seconds: t.seconds, nanos: #[verifier::truncate] (t.nanos as i32) },
        ),
        None => None,
    };
    let tags = match &metric.series.tags {
        Some(t) => clone_string_pairs(t),
        None => Vec::new(),
    };
    let kind = kind_to_wire(metric.data.kind);
    let value = Some(encode_metric_value(&metric.data.value));
    let r = WireMetric { name, namespace, timestamp, tags, kind, value };
    proof {
        if metric@.tags is None {
            assert(crate::lift_string_pairs(r.tags@) =~= Seq::<(Seq<char>, Seq<char>)>::empty());
        }
        assert(r@ =~= spec_encode_metric(metric@));
    }
    r
}

/// The normal form of a canonical metric, as decoding always yields it:
/// the namespace and the tags are never present but empty, and set
/// members are duplicate-free.
pub open spec fn metric_normal(m: MetricModel) -> bool {
    &&& (match m.namespace {
        Some(ns) => ns.len() != 0,
        None => true,
    })
    &&& (match m.tags {
        Some(t) => t.len() != 0,
        None => true,
    })
    &&& (match m.value {
        MetricValueModel::StringSet { values } => distinct_seq(values),
        _ => true,
    })
}

/// A wire metric that uses only the current generation of value
/// encodings, with duplicate-free set members.
pub open spec fn wire_metric_current(w: WireMetricModel) -> bool {
    match w.value {
        Some(v) => match v {
            WireMetricValueModel::StringSet { values } => distinct_seq(values),
            WireMetricValueModel::Distribution1 { .. } => false,
            WireMetricValueModel::AggregatedHistogram1 { .. } => false,
            WireMetricValueModel::AggregatedSummary1 { .. } => false,
            _ => true,
        },
        None => false,
    }
}

/// Decoding any wire metric yields a canonical metric in normal form.
pub proof fn lemma_decode_metric_normal(w: WireMetricModel)
    requires
        w.value is Some,
    ensures
        metric_normal(spec_decode_metric(w)),
{
    match w.value->0 {
        WireMetricValueModel::StringSet { values } => {
            lemma_dedup_is_set(values);
        },
        _ => {},
    }
}

/// Encoding a canonical metric in normal form and decoding the result
/// reproduces the metric exactly.
pub proof fn lemma_metric_round_trip(m: MetricModel)
    requires
        metric_normal(m),
    ensures
        spec_decode_metric(spec_encode_metric(m)) == m,
{
    match m.timestamp {
        Some(t) => crate::scalars::lemma_canonical_timestamp_round_trip(t),
        None => {},
    }
    match m.value {
        MetricValueModel::StringSet { values } => lemma_dedup_of_distinct(values),
        _ => {},
    }
    assert(spec_decode_metric(spec_encode_metric(m)) =~= m);
}

/// Decoding a wire metric that already uses the current generation and
/// re-encoding it reproduces it exactly: normalization changes only
/// legacy forms.
pub proof fn lemma_wire_metric_round_trip(w: WireMetricModel)
    requires
        wire_metric_current(w),
    ensures
        spec_encode_metric(spec_decode_metric(w)) == w,
{
    let m = spec_decode_metric(w);
    match w.timestamp {
        Some(t) => crate::scalars::lemma_wire_timestamp_round_trip(t),
        None => {},
    }
    match w.value->0 {
        WireMetricValueModel::StringSet { values } => lemma_dedup_of_distinct(values),
        _ => {},
    }
    if w.namespace.len() == 0 {
        assert(spec_encode_metric(m).namespace =~= w.namespace);
    }
    if w.tags.len() == 0 {
        assert(spec_encode_metric(m).tags =~= w.tags);
    }
    assert(spec_encode_metric(m) =~= w);
}

/// Normalization is idempotent: decoding and re-encoding a second time
/// changes nothing beyond what the first pass changed.
pub proof fn lemma_normalize_idempotent(w: WireMetricModel)
    requires
        w.value is Some,
    ensures
        spec_encode_metric(spec_decode_metric(spec_encode_metric(spec_decode_metric(w))))
            == spec_encode_metric(spec_decode_metric(w)),
{
    let m = spec_decode_metric(w);
    lemma_decode_metric_normal(w);
    lemma_metric_round_trip(m);
}

/// A legacy distribution decodes exactly as the current-form message
/// carrying the element-wise pairing of its parallel arrays.
pub proof fn lemma_legacy_distribution_equiv(
    values: Seq<FloatBits>,
    sample_rates: Seq<u32>,
    statistic: WireStatisticKind,
)
    ensures
        spec_decode_metric_value(
            WireMetricValueModel::Distribution1 { values, sample_rates, statistic },
        ) == spec_decode_metric_value(
            WireMetricValueModel::Distribution2 {
                samples: spec_zip_samples(values, sample_rates),
                statistic,
            },
        ),
{
}

/// A legacy aggregated histogram decodes exactly as the current-form
/// message carrying the element-wise pairing of its parallel arrays.
pub proof fn lemma_legacy_histogram_equiv(
    buckets: Seq<FloatBits>,
    counts: Seq<u32>,
    count: u32,
    sum: FloatBits,
)
    ensures
        spec_decode_metric_value(
            WireMetricValueModel::AggregatedHistogram1 { buckets, counts, count, sum },
        ) == spec_decode_metric_value(
            WireMetricValueModel::AggregatedHistogram2 {
                buckets: spec_zip_buckets(buckets, counts),
                count,
                sum,
            },
        ),
{
}

/// A legacy aggregated summary decodes exactly as the current-form
/// message carrying the element-wise pairing of its parallel arrays.
pub proof fn lemma_legacy_summary_equiv(
    quantiles: Seq<FloatBits>,
    values: Seq<FloatBits>,
    count: u32,
    sum: FloatBits,
)
    ensures
        spec_decode_metric_value(
            WireMetricValueModel::AggregatedSummary1 { quantiles, values, count, sum },
        ) == spec_decode_metric_value(
            WireMetricValueModel::AggregatedSummary2 {
                quantiles: spec_zip_quantiles(quantiles, values),
                count,
                sum,
            },
        ),
{
}

} // verus!
