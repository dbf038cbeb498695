//! Top-level transcoding between the canonical [`Event`] union and the
//! wire envelope. A missing inner event is a protocol violation and
//! fails fatally, unlike a failing nested value, which is tolerated:
//! the offending log field is dropped and decoding continues.

use vstd::prelude::*;
use crate::event::{
    Event, EventModel, EventMetadata, LogEvent, ValueModel, lift_value_fields,
};
use crate::wire::{
    WireEvent, WireEventModel, WireEventWrapper, WireEventWrapperModel, WireChunk, WireFrame,
    WireLog, WireValueModel, lift_wire_fields,
};
use crate::value_codec::{
    decode_value, encode_map, copy_bytes, spec_decode_value, spec_encode_value,
    spec_encode_fields, lemma_value_round_trip,
};
use crate::metric_codec::{
    decode_metric, encode_metric, spec_decode_metric, spec_encode_metric, metric_normal,
    lemma_metric_round_trip,
};

verus! {

/// The fatal decoding failure: required wire content is missing, so the
/// message cannot be processed at all.
#[derive(Clone, Copy, Debug, PartialEq, Eq, Structural)]
pub enum DecodeError {
    /// The envelope carries no inner event, or a metric message carries
    /// no value.
    ProtocolViolation,
}

/// What decoding a wire log's fields yields: each field whose value
/// decodes is kept, in order; a field whose value fails to decode is
/// dropped silently, and the rest are kept.
pub open spec fn spec_decode_log(
    s: Seq<(Seq<char>, WireValueModel)>,
) -> Seq<(Seq<char>, ValueModel)>
    decreases s.len(),
{
    if s.len() == 0 {
        Seq::empty()
    } else {
        let pre = spec_decode_log(s.drop_last());
        match spec_decode_value(s.last().1) {
            Some(v) => pre.push((s.last().0, v)),
            None => pre,
        }
    }
}

/// What decoding a wire envelope yields: absence when the inner event
/// is missing, or a metric message misses its value; otherwise the
/// decoded canonical event.
pub open spec fn spec_decode_event_wrapper(w: WireEventWrapperModel) -> Option<EventModel> {
    match w.event {
        None => None,
        Some(WireEventModel::Chunk(b)) => Some(EventModel::Chunk(b)),
        Some(WireEventModel::Frame(b)) => Some(EventModel::Frame(b)),
        Some(WireEventModel::Log(fields)) => Some(EventModel::Log(spec_decode_log(fields))),
        Some(WireEventModel::Metric(m)) => if m.value is Some {
            Some(EventModel::Metric(spec_decode_metric(m)))
        } else {
            None
        },
    }
}

/// What encoding a canonical event yields: the envelope always carries
/// an inner event, and the event's internal metadata is discarded.
pub open spec fn spec_encode_event(e: EventModel) -> WireEventWrapperModel {
    WireEventWrapperModel {
        event: Some(
            match e {
                EventModel::Chunk(b) => WireEventModel::Chunk(b),
                EventModel::Frame(b) => WireEventModel::Frame(b),
                EventModel::Log(fields) => WireEventModel::Log(spec_encode_fields(fields)),
                EventModel::Metric(m) => WireEventModel::Metric(spec_encode_metric(m)),
            },
        ),
    }
}

/// Decodes a wire log into a canonical log event: fields whose values
/// fail to decode are dropped, the rest are kept in order, and fresh
/// default metadata is attached.
pub fn decode_log(log: &WireLog) -> (r: LogEvent)
    ensures
        r@ == spec_decode_log(lift_wire_fields(log.fields@)),
        r.metadata == (EventMetadata {}),
{
    let ghost full = lift_wire_fields(log.fields@);
    let mut accum: Vec<(String, crate::event::Value)> = Vec::new();
    let mut i: usize = 0;
    while i < log.fields.len()
        invariant
            i <= log.fields.len(),
            full == lift_wire_fields(log.fields@),
            lift_value_fields(accum@) == spec_decode_log(full.subrange(0, i as int)),
        decreases log.fields.len() - i,
    {
        proof {
            assert(full[i as int] == (log.fields@[i as int].0@, log.fields@[i as int].1@));
        }
        let ghost prev = accum@;
        match decode_value(&log.fields[i].1) {
            Some(v) => {
                let key = log.fields[i].0.clone();
                accum.push((key, v));
            },
            None => {},
        }
        i = i + 1;
        proof {
            let pre = full.subrange(0, i as int - 1);
            let cur = full.subrange(0, i as int);
            assert(cur.drop_last() =~= pre);
            assert(cur.last() == full[i as int - 1]);
            assert(lift_value_fields(accum@) =~= spec_decode_log(cur));
        }
    }
    proof {
        assert(full.subrange(0, i as int) =~= full);
    }
    LogEvent { fields: accum, metadata: EventMetadata::default() }
}

/// Encodes a canonical log event as a wire log, field by field. The
/// event's internal metadata is discarded: the wire format has no slot
/// for it.
pub fn encode_log(log: &LogEvent) -> (r: WireLog)
    ensures
        lift_wire_fields(r.fields@) == spec_encode_fields(log@),
{
    let encoded = encode_map(&log.fields);
    WireLog { fields: encoded.fields }
}

/// Decodes a wire envelope into a canonical event. An envelope without
/// an inner event, or with a metric that has no value, is a protocol
/// violation: the error is returned and nothing is decoded. A log with
/// zero fields is not a violation: it decodes to an empty log event.
pub fn decode_event_wrapper(wrapper: &WireEventWrapper) -> (r: Result<Event, DecodeError>)
    ensures
        (match r {
            Ok(e) => spec_decode_event_wrapper(wrapper@) == Some(e@),
            Err(err) => spec_decode_event_wrapper(wrapper@) is None && err
                == DecodeError::ProtocolViolation,
        }),
{
    match &wrapper.event {
        None => Err(DecodeError::ProtocolViolation),
        Some(WireEvent::Chunk(c)) => Ok(Event::Chunk(copy_bytes(&c.bytes), EventMetadata::default())),
        Some(WireEvent::Frame(f)) => Ok(Event::Frame(copy_bytes(&f.bytes), EventMetadata::default())),
        Some(WireEvent::Log(l)) => Ok(Event::Log(decode_log(l))),
        Some(WireEvent::Metric(m)) => {
            if m.value.is_some() {
                Ok(Event::Metric(decode_metric(m)))
            } else {
                Err(DecodeError::ProtocolViolation)
            }
        },
    }
}

/// Encodes a canonical event into a wire envelope. Total: the envelope
/// always carries an inner event.
pub fn encode_event(event: &Event) -> (r: WireEventWrapper)
    ensures
        r@ == spec_encode_event(event@),
        r.event is Some,
{
    match event {
        Event::Chunk(bytes, _) => WireEventWrapper {
            event: Some(WireEvent::Chunk(WireChunk { bytes: copy_bytes(bytes) })),
        },
        Event::Frame(bytes, _) => WireEventWrapper {
            event: Some(WireEvent::Frame(WireFrame { bytes: copy_bytes(bytes) })),
        },
        Event::Log(log) => WireEventWrapper { event: Some(WireEvent::Log(encode_log(log))) },
        Event::Metric(metric) => WireEventWrapper {
            event: Some(WireEvent::Metric(encode_metric(metric))),
        },
    }
}

/// Encoded log fields always decode back, field for field: no field is
/// ever dropped on this path, since encoding is total and exact.
pub proof fn lemma_log_round_trip(s: Seq<(Seq<char>, ValueModel)>)
    ensures
        spec_decode_log(spec_encode_fields(s)) == s,
    decreases s.len(),
{
    let enc = spec_encode_fields(s);
    if s.len() == 0 {
        assert(spec_decode_log(enc) =~= s);
    } else {
        lemma_log_round_trip(s.drop_last());
        lemma_value_round_trip(s.last().1);
        assert(enc.drop_last() =~= spec_encode_fields(s.drop_last()));
        assert(enc.last() == (s.last().0, spec_encode_value(s.last().1)));
        assert(spec_decode_log(enc) =~= s);
    }
}

/// The normal form of a canonical event: its metric, if it is one, is
/// in normal form.
pub open spec fn event_normal(e: EventModel) -> bool {
    match e {
        EventModel::Metric(m) => metric_normal(m),
        _ => true,
    }
}

/// Every canonical event in normal form round-trips exactly through the
/// wire envelope: encoding always succeeds, and decoding the result
/// reproduces the event.
pub proof fn lemma_event_round_trip(e: EventModel)
    requires
        event_normal(e),
    ensures
        spec_decode_event_wrapper(spec_encode_event(e)) == Some(e),
{
    match e {
        EventModel::Log(fields) => lemma_log_round_trip(fields),
        EventModel::Metric(m) => lemma_metric_round_trip(m),
        _ => {},
    }
}

} // verus!
