//! End-to-end tests of the transcoding layer: round trips, legacy
//! normalization, all-or-nothing containers, and protocol violations.

use event_codec::composer::{decode_event_wrapper, encode_event, decode_log, DecodeError};
use event_codec::event::{
    Event, EventMetadata, LogEvent, Metric, MetricData, MetricKind, MetricSeries, MetricValue,
    StatisticKind, Value,
};
use event_codec::metric_codec::{
    decode_metric, decode_metric_value, encode_metric, collect_string_set, zip_samples,
    zip_buckets, zip_quantiles,
};
use event_codec::scalars::{Bucket, FloatBits, Quantile, Sample, Timestamp, WireTimestamp};
use event_codec::value_codec::{decode_value, encode_value, decode_map};
use event_codec::wire::{
    WireChunk, WireEvent, WireEventWrapper, WireLog, WireMetric, WireMetricKind, WireMetricValue,
    WireStatisticKind, WireValue, WireValueArray, WireValueKind, WireValueMap,
};

fn fb(x: f64) -> FloatBits {
    FloatBits(x.to_bits())
}

fn s(x: &str) -> String {
    String::from(x)
}

fn sample_value_tree() -> Value {
    Value::Mapping(vec![
        (s("bytes"), Value::Bytes(vec![0, 1, 2, 255])),
        (s("flag"), Value::Boolean(true)),
        (
            s("items"),
            Value::Array(vec![
                Value::Integer(-7),
                Value::Float(fb(2.5)),
                Value::Null,
                Value::Timestamp(Timestamp { seconds: 1_600_000_000, nanos: 123_456_789 }),
            ]),
        ),
        (s("nested"), Value::Mapping(vec![(s("k"), Value::Integer(5))])),
    ])
}

#[test]
fn value_round_trip_nested() {
    let input = sample_value_tree();
    let encoded = encode_value(&input);
    let decoded = decode_value(&encoded);
    assert_eq!(decoded, Some(sample_value_tree()));
}

#[test]
fn value_round_trip_float_bit_patterns() {
    for x in [0.0f64, -0.0, 1.5, f64::INFINITY, f64::NEG_INFINITY, f64::NAN] {
        let input = Value::Float(fb(x));
        let decoded = decode_value(&encode_value(&input));
        assert_eq!(decoded, Some(Value::Float(fb(x))));
    }
}

#[test]
fn unknown_kind_decodes_to_absent() {
    let unknown = WireValue { kind: None };
    assert_eq!(decode_value(&unknown), None);
}

#[test]
fn mixed_map_is_all_or_nothing() {
    // One entry with an unrecognized kind and one with Integer(5): the
    // whole map decodes to absent, not to a map with the valid entry.
    let fields = vec![
        (s("bad"), WireValue { kind: None }),
        (s("good"), WireValue { kind: Some(WireValueKind::Integer(5)) }),
    ];
    assert_eq!(decode_map(&fields), None);
    let nested = WireValue {
        kind: Some(WireValueKind::Mapping(WireValueMap { fields: vec![
            (s("bad"), WireValue { kind: None }),
            (s("good"), WireValue { kind: Some(WireValueKind::Integer(5)) }),
        ] })),
    };
    assert_eq!(decode_value(&nested), None);
}

#[test]
fn mixed_array_is_all_or_nothing() {
    let nested = WireValue {
        kind: Some(WireValueKind::Array(WireValueArray { items: vec![
            WireValue { kind: Some(WireValueKind::Integer(5)) },
            WireValue { kind: None },
        ] })),
    };
    assert_eq!(decode_value(&nested), None);
}

#[test]
fn failing_log_field_is_dropped_not_fatal() {
    // At the log level a failing field is dropped; the rest are kept.
    let log = WireLog { fields: vec![
        (s("bad"), WireValue { kind: None }),
        (s("good"), WireValue { kind: Some(WireValueKind::Integer(5)) }),
    ] };
    let decoded = decode_log(&log);
    assert_eq!(decoded.fields, vec![(s("good"), Value::Integer(5))]);
}

#[test]
fn wire_timestamp_negative_nanos_round_trip() {
    // The signed wire nanosecond field is reinterpreted bit for bit, so
    // even out-of-range values survive a full round trip.
    let wire = WireValue {
        kind: Some(WireValueKind::Timestamp(WireTimestamp { seconds: -5, nanos: -1 })),
    };
    let decoded = decode_value(&wire).expect("timestamp decodes");
    assert_eq!(decoded, Value::Timestamp(Timestamp { seconds: -5, nanos: u32::MAX }));
    let reencoded = encode_value(&decoded);
    assert_eq!(reencoded, wire);
}

fn legacy_distribution_metric(values: Vec<FloatBits>, rates: Vec<u32>) -> WireMetric {
    WireMetric {
        name: s("latency"),
        namespace: s(""),
        timestamp: None,
        tags: vec![],
        kind: WireMetricKind::Incremental,
        value: Some(WireMetricValue::Distribution1 {
            values,
            sample_rates: rates,
            statistic: WireStatisticKind::Histogram,
        }),
    }
}

#[test]
fn legacy_distribution_equals_current() {
    // values = [1.0, 2.0], sample_rates = [1, 2] decodes to the samples
    // [(1.0, 1), (2.0, 2)], identical to decoding the current form.
    let legacy = legacy_distribution_metric(vec![fb(1.0), fb(2.0)], vec![1, 2]);
    let decoded = decode_metric(&legacy);
    let expected = MetricValue::Distribution {
        statistic: StatisticKind::Histogram,
        samples: vec![
            Sample { value: fb(1.0), rate: 1 },
            Sample { value: fb(2.0), rate: 2 },
        ],
    };
    assert_eq!(decoded.data.value, expected);

    let current = WireMetricValue::Distribution2 {
        samples: vec![
            Sample { value: fb(1.0), rate: 1 },
            Sample { value: fb(2.0), rate: 2 },
        ],
        statistic: WireStatisticKind::Histogram,
    };
    assert_eq!(decode_metric_value(&current), expected);
}

#[test]
fn legacy_length_mismatch_drops_excess() {
    // values = [1.0, 2.0, 3.0], sample_rates = [5]: only the first pair
    // survives; the excess is dropped silently.
    let legacy = legacy_distribution_metric(vec![fb(1.0), fb(2.0), fb(3.0)], vec![5]);
    let decoded = decode_metric(&legacy);
    assert_eq!(
        decoded.data.value,
        MetricValue::Distribution {
            statistic: StatisticKind::Histogram,
            samples: vec![Sample { value: fb(1.0), rate: 5 }],
        },
    );
}

#[test]
fn zip_helpers_stop_at_shorter() {
    assert_eq!(
        zip_samples(&vec![fb(1.0)], &vec![7, 9]),
        vec![Sample { value: fb(1.0), rate: 7 }],
    );
    assert_eq!(
        zip_buckets(&vec![fb(0.5), fb(1.5)], &vec![3]),
        vec![Bucket { upper_limit: fb(0.5), count: 3 }],
    );
    assert_eq!(
        zip_quantiles(&vec![fb(0.99)], &vec![fb(42.0), fb(43.0)]),
        vec![Quantile { quantile: fb(0.99), value: fb(42.0) }],
    );
}

#[test]
fn legacy_histogram_pairs_buckets() {
    let wire = WireMetricValue::AggregatedHistogram1 {
        buckets: vec![fb(1.0), fb(2.0)],
        counts: vec![10, 20],
        count: 30,
        sum: fb(25.0),
    };
    assert_eq!(
        decode_metric_value(&wire),
        MetricValue::AggregatedHistogram {
            buckets: vec![
                Bucket { upper_limit: fb(1.0), count: 10 },
                Bucket { upper_limit: fb(2.0), count: 20 },
            ],
            count: 30,
            sum: fb(25.0),
        },
    );
}

#[test]
fn legacy_summary_pairs_quantiles() {
    let wire = WireMetricValue::AggregatedSummary1 {
        quantiles: vec![fb(0.5), fb(0.99)],
        values: vec![fb(10.0), fb(42.0)],
        count: 7,
        sum: fb(52.0),
    };
    assert_eq!(
        decode_metric_value(&wire),
        MetricValue::AggregatedSummary {
            quantiles: vec![
                Quantile { quantile: fb(0.5), value: fb(10.0) },
                Quantile { quantile: fb(0.99), value: fb(42.0) },
            ],
            count: 7,
            sum: fb(52.0),
        },
    );
}

#[test]
fn empty_namespace_and_tags_decode_to_absent() {
    let wire = WireMetric {
        name: s("requests"),
        namespace: s(""),
        timestamp: None,
        tags: vec![],
        kind: WireMetricKind::Absolute,
        value: Some(WireMetricValue::Counter { value: fb(1.0) }),
    };
    let decoded = decode_metric(&wire);
    assert_eq!(decoded.series.namespace, None);
    assert_eq!(decoded.series.tags, None);

    let reencoded = encode_metric(&decoded);
    assert_eq!(reencoded.namespace, s(""));
    assert_eq!(reencoded.tags, vec![]);
}

#[test]
fn set_decode_dedups_and_reencodes_two_members() {
    // ["a", "a", "b"] decodes to a set of size 2; re-encoding yields a
    // sequence of length 2 holding exactly "a" and "b".
    let wire = WireMetricValue::StringSet { values: vec![s("a"), s("a"), s("b")] };
    let decoded = decode_metric_value(&wire);
    let values = match &decoded {
        MetricValue::StringSet { values } => values.clone(),
        other => panic!("expected a set, got {:?}", other),
    };
    assert_eq!(values.len(), 2);
    assert!(values.contains(&s("a")));
    assert!(values.contains(&s("b")));

    let reencoded = event_codec::metric_codec::encode_metric_value(&decoded);
    let wire_values = match reencoded {
        WireMetricValue::StringSet { values } => values,
        other => panic!("expected a set, got {:?}", other),
    };
    assert_eq!(wire_values.len(), 2);
    assert!(wire_values.contains(&s("a")));
    assert!(wire_values.contains(&s("b")));
}

#[test]
fn collect_string_set_keeps_first_occurrence() {
    let collected = collect_string_set(&vec![s("b"), s("a"), s("b"), s("a")]);
    assert_eq!(collected, vec![s("b"), s("a")]);
}

#[test]
fn current_wire_metric_round_trips_exactly() {
    let wire = WireMetric {
        name: s("latency"),
        namespace: s("app"),
        timestamp: Some(WireTimestamp { seconds: 1_600_000_000, nanos: 250 }),
        tags: vec![(s("host"), s("h1")), (s("region"), s("r2"))],
        kind: WireMetricKind::Incremental,
        value: Some(WireMetricValue::Distribution2 {
            samples: vec![Sample { value: fb(1.0), rate: 1 }],
            statistic: WireStatisticKind::Summary,
        }),
    };
    let decoded = decode_metric(&wire);
    let reencoded = encode_metric(&decoded);
    assert_eq!(reencoded, wire);
}

#[test]
fn normalization_is_idempotent() {
    let legacy = legacy_distribution_metric(vec![fb(1.0), fb(2.0)], vec![3, 4]);
    let once = encode_metric(&decode_metric(&legacy));
    let twice = encode_metric(&decode_metric(&once));
    assert_eq!(twice, once);
    // The legacy generation never comes back out.
    assert!(matches!(once.value, Some(WireMetricValue::Distribution2 { .. })));
}

#[test]
fn missing_inner_event_is_fatal() {
    let wrapper = WireEventWrapper { event: None };
    assert_eq!(decode_event_wrapper(&wrapper), Err(DecodeError::ProtocolViolation));
}

#[test]
fn empty_log_is_not_a_violation() {
    // A log with zero fields is distinct from a missing inner event: it
    // decodes to an event with an empty field mapping.
    let wrapper = WireEventWrapper { event: Some(WireEvent::Log(WireLog { fields: vec![] })) };
    let decoded = decode_event_wrapper(&wrapper).expect("empty log decodes");
    assert_eq!(
        decoded,
        Event::Log(LogEvent { fields: vec![], metadata: EventMetadata::default() }),
    );
}

#[test]
fn metric_without_value_is_fatal() {
    let wrapper = WireEventWrapper {
        event: Some(WireEvent::Metric(WireMetric {
            name: s("m"),
            namespace: s(""),
            timestamp: None,
            tags: vec![],
            kind: WireMetricKind::Incremental,
            value: None,
        })),
    };
    assert_eq!(decode_event_wrapper(&wrapper), Err(DecodeError::ProtocolViolation));
}

#[test]
fn chunk_round_trips_with_default_metadata() {
    let event = Event::Chunk(vec![1, 2, 3], EventMetadata::default());
    let wrapper = encode_event(&event);
    assert_eq!(wrapper.event, Some(WireEvent::Chunk(WireChunk { bytes: vec![1, 2, 3] })));
    let decoded = decode_event_wrapper(&wrapper).expect("chunk decodes");
    assert_eq!(decoded, event);
}

#[test]
fn log_event_round_trips_through_envelope() {
    let event = Event::Log(LogEvent {
        fields: vec![
            (s("msg"), Value::Bytes(b"hello".to_vec())),
            (s("ok"), Value::Boolean(false)),
        ],
        metadata: EventMetadata::default(),
    });
    let wrapper = encode_event(&event);
    let decoded = decode_event_wrapper(&wrapper).expect("log decodes");
    assert_eq!(decoded, event);
}

#[test]
fn metric_event_round_trips_through_envelope() {
    let event = Event::Metric(Metric {
        series: MetricSeries {
            name: s("queue_depth"),
            namespace: Some(s("app")),
            tags: Some(vec![(s("host"), s("h1"))]),
        },
        data: MetricData {
            timestamp: Some(Timestamp { seconds: 123, nanos: 456 }),
            kind: MetricKind::Absolute,
            value: MetricValue::Gauge { value: fb(3.5) },
        },
    });
    let wrapper = encode_event(&event);
    let decoded = decode_event_wrapper(&wrapper).expect("metric decodes");
    assert_eq!(decoded, event);
}
