//! Recursive transcoding between canonical [`Value`] trees and wire
//! values. Decoding is all-or-nothing per container: if any nested entry
//! fails to decode, the whole container decodes to absent. Encoding is
//! total.

use vstd::prelude::*;
use crate::event::{Value, ValueModel, lift_values, lift_value_fields};
use crate::wire::{
    WireValue, WireValueKind, WireValueMap, WireValueArray, WireValueModel, WireValueKindModel,
    lift_wire_values, lift_wire_fields,
};
use crate::scalars::Timestamp;
use crate::scalars::WireTimestamp;

verus! {

/// What decoding a wire value yields: the canonical value, or absence
/// when the kind is missing or any nested entry fails.
pub open spec fn spec_decode_value(w: WireValueModel) -> Option<ValueModel>
    decreases w,
{
    match w.kind {
        None => None,
        Some(WireValueKindModel::RawBytes(b)) => Some(ValueModel::Bytes(b)),
        Some(WireValueKindModel::Timestamp(t)) => Some(
            ValueModel::Timestamp(Timestamp::spec_from_wire(t)),
        ),
        Some(WireValueKindModel::Integer(i)) => Some(ValueModel::Integer(i)),
        Some(WireValueKindModel::Float(f)) => Some(ValueModel::Float(f)),
        Some(WireValueKindModel::Boolean(b)) => Some(ValueModel::Boolean(b)),
        Some(WireValueKindModel::Mapping(fields)) => match spec_decode_fields(fields) {
            Some(fs) => Some(ValueModel::Mapping(fs)),
            None => None,
        },
        Some(WireValueKindModel::Array(items)) => match spec_decode_items(items) {
            Some(is) => Some(ValueModel::Array(is)),
            None => None,
        },
        Some(WireValueKindModel::Null(_)) => Some(ValueModel::Null),
    }
}

/// Decoding of a mapping's entries, all-or-nothing, keys kept as they
/// are and order preserved.
pub open spec fn spec_decode_fields(
    s: Seq<(Seq<char>, WireValueModel)>,
) -> Option<Seq<(Seq<char>, ValueModel)>>
    decreases s,
{
    if s.len() == 0 {
        Some(Seq::empty())
    } else {
        match (spec_decode_fields(s.drop_last()), spec_decode_value(s.last().1)) {
            (Some(pre), Some(v)) => Some(pre.push((s.last().0, v))),
            _ => None,
        }
    }
}

/// Decoding of an array's items, all-or-nothing, order preserved.
pub open spec fn spec_decode_items(s: Seq<WireValueModel>) -> Option<Seq<ValueModel>>
    decreases s,
{
    if s.len() == 0 {
        Some(Seq::empty())
    } else {
        match (spec_decode_items(s.drop_last()), spec_decode_value(s.last())) {
            (Some(pre), Some(v)) => Some(pre.push(v)),
            _ => None,
        }
    }
}

/// What encoding a canonical value yields. Encoding is total and always
/// writes a present kind.
pub open spec fn spec_encode_value(v: ValueModel) -> WireValueModel
    decreases v,
{
    WireValueModel {
        kind: Some(
            match v {
                ValueModel::Bytes(b) => WireValueKindModel::RawBytes(b),
                ValueModel::Timestamp(t) => WireValueKindModel::Timestamp(
                    WireTimestamp::spec_from_canonical(t),
                ),
                ValueModel::Integer(i) => WireValueKindModel::Integer(i),
                ValueModel::Float(f) => WireValueKindModel::Float(f),
                ValueModel::Boolean(b) => WireValueKindModel::Boolean(b),
                ValueModel::Mapping(fields) => WireValueKindModel::Mapping(
                    spec_encode_fields(fields),
                ),
                ValueModel::Array(items) => WireValueKindModel::Array(spec_encode_items(items)),
                ValueModel::Null => WireValueKindModel::Null(0),
            },
        ),
    }
}

/// Encoding of a mapping's entries, element by element.
pub open spec fn spec_encode_fields(
    s: Seq<(Seq<char>, ValueModel)>,
) -> Seq<(Seq<char>, WireValueModel)>
    decreases s,
{
    Seq::new(
        s.len(),
        |i: int| if 0 <= i < s.len() {
            (s[i].0, spec_encode_value(s[i].1))
        } else {
            (Seq::empty(), WireValueModel { kind: None })
        },
    )
}

/// Encoding of an array's items, element by element.
pub open spec fn spec_encode_items(s: Seq<ValueModel>) -> Seq<WireValueModel>
    decreases s,
{
    Seq::new(
        s.len(),
        |i: int| if 0 <= i < s.len() {
            spec_encode_value(s[i])
        } else {
            WireValueModel { kind: None }
        },
    )
}

/// If any single entry of a mapping fails to decode, the whole mapping
/// decodes to absent.
pub proof fn lemma_decode_fields_fail(s: Seq<(Seq<char>, WireValueModel)>, i: int)
    requires
        0 <= i < s.len(),
        spec_decode_value(s[i].1) is None,
    ensures
        spec_decode_fields(s) is None,
    decreases s.len(),
{
    if i < s.len() - 1 {
        lemma_decode_fields_fail(s.drop_last(), i);
    }
}

/// If any single item of an array fails to decode, the whole array
/// decodes to absent.
pub proof fn lemma_decode_items_fail(s: Seq<WireValueModel>, i: int)
    requires
        0 <= i < s.len(),
        spec_decode_value(s[i]) is None,
    ensures
        spec_decode_items(s) is None,
    decreases s.len(),
{
    if i < s.len() - 1 {
        lemma_decode_items_fail(s.drop_last(), i);
    }
}

/// Copies a byte buffer.
pub(crate) fn copy_bytes(b: &Vec<u8>) -> (r: Vec<u8>)
    ensures
        r@ == b@,
{
    let mut r: Vec<u8> = Vec::new();
    let mut i: usize = 0;
    while i < b.len()
        invariant
            i <= b.len(),
            r@ == b@.subrange(0, i as int),
        decreases b.len() - i,
    {
        r.push(b[i]);
        i = i + 1;
        proof {
            assert(r@ =~= b@.subrange(0, i as int));
        }
    }
    proof {
        assert(r@ =~= b@);
    }
    r
}

/// Decodes one wire value into a canonical value; absent when the kind
/// is missing or any nested entry fails to decode.
pub fn decode_value(input: &WireValue) -> (r: Option<Value>)
    ensures
        (match r {
            Some(v) => spec_decode_value(input@) == Some(v@),
            None => spec_decode_value(input@) is None,
        }),
    decreases input,
{
    match &input.kind {
        None => None,
        Some(WireValueKind::RawBytes(b)) => Some(Value::Bytes(copy_bytes(b))),
        Some(WireValueKind::Timestamp(t)) => Some(
            Value::Timestamp(
                Timestamp { seconds: t.seconds, nanos: #[verifier::truncate] (t.nanos as u32) },
            ),
        ),
        Some(WireValueKind::Integer(i)) => Some(Value::Integer(*i)),
        Some(WireValueKind::Float(f)) => Some(Value::Float(*f)),
        Some(WireValueKind::Boolean(b)) => Some(Value::Boolean(*b)),
        Some(WireValueKind::Mapping(m)) => decode_map(&m.fields),
        Some(WireValueKind::Array(a)) => decode_array(&a.items),
        Some(WireValueKind::Null(_)) => Some(Value::Null),
    }
}

/// Decodes the entries of a wire mapping into a canonical `Mapping`
/// value, all-or-nothing: no partial mapping is ever produced.
pub fn decode_map(fields: &Vec<(String, WireValue)>) -> (r: Option<Value>)
    ensures
        (match r {
            Some(v) => (match spec_decode_fields(lift_wire_fields(fields@)) {
                Some(fs) => v@ == ValueModel::Mapping(fs),
                None => false,
            }),
            None => spec_decode_fields(lift_wire_fields(fields@)) is None,
        }),
    decreases fields,
{
    let ghost full = lift_wire_fields(fields@);
    let mut accum: Vec<(String, Value)> = Vec::new();
    let mut i: usize = 0;
    while i < fields.len()
        invariant
            i <= fields.len(),
            full == lift_wire_fields(fields@),
            spec_decode_fields(full.subrange(0, i as int)) == Some(lift_value_fields(accum@)),
        decreases fields.len() - i,
    {
        proof {
            assert(full[i as int] == (fields@[i as int].0@, fields@[i as int].1@));
        }
        match decode_value(&fields[i].1) {
            Some(v) => {
                let key = fields[i].0.clone();
                accum.push((key, v));
            },
            None => {
                proof {
                    lemma_decode_fields_fail(full, i as int);
                }
                return None;
            },
        }
        i = i + 1;
        proof {
            let pre = full.subrange(0, i as int - 1);
            let cur = full.subrange(0, i as int);
            assert(cur.drop_last() =~= pre);
            assert(cur.last() == full[i as int - 1]);
            assert(lift_value_fields(accum@) =~= spec_decode_fields(cur)->0);
        }
    }
    proof {
        assert(full.subrange(0, i as int) =~= full);
    }
    Some(Value::Mapping(accum))
}

/// Decodes the items of a wire array into a canonical `Array` value,
/// all-or-nothing: no partial array is ever produced.
pub fn decode_array(items: &Vec<WireValue>) -> (r: Option<Value>)
    ensures
        (match r {
            Some(v) => (match spec_decode_items(lift_wire_values(items@)) {
                Some(is) => v@ == ValueModel::Array(is),
                None => false,
            }),
            None => spec_decode_items(lift_wire_values(items@)) is None,
        }),
    decreases items,
{
    let ghost full = lift_wire_values(items@);
    let mut accum: Vec<Value> = Vec::new();
    let mut i: usize = 0;
    while i < items.len()
        invariant
            i <= items.len(),
            full == lift_wire_values(items@),
            spec_decode_items(full.subrange(0, i as int)) == Some(lift_values(accum@)),
        decreases items.len() - i,
    {
        proof {
            assert(full[i as int] == items@[i as int]@);
        }
        match decode_value(&items[i]) {
            Some(v) => {
                accum.push(v);
            },
            None => {
                proof {
                    lemma_decode_items_fail(full, i as int);
                }
                return None;
            },
        }
        i = i + 1;
        proof {
            let pre = full.subrange(0, i as int - 1);
            let cur = full.subrange(0, i as int);
            assert(cur.drop_last() =~= pre);
            assert(cur.last() == full[i as int - 1]);
            assert(lift_values(accum@) =~= spec_decode_items(cur)->0);
        }
    }
    proof {
        assert(full.subrange(0, i as int) =~= full);
    }
    Some(Value::Array(accum))
}

/// Encodes one canonical value as a wire value. Total: every canonical
/// value has a wire form.
pub fn encode_value(value: &Value) -> (r: WireValue)
    ensures
        r@ == spec_encode_value(value@),
    decreases value,
{
    match value {
        Value::Bytes(b) => WireValue { kind: Some(WireValueKind::RawBytes(copy_bytes(b))) },
        Value::Timestamp(t) => WireValue {
            kind: Some(
                WireValueKind::Timestamp(
                    WireTimestamp {
                        seconds: t.seconds,
                        nanos: #[verifier::truncate] (t.nanos as i32),
                    },
                ),
            ),
        },
        Value::Integer(i) => WireValue { kind: Some(WireValueKind::Integer(*i)) },
        Value::Float(f) => WireValue { kind: Some(WireValueKind::Float(*f)) },
        Value::Boolean(b) => WireValue { kind: Some(WireValueKind::Boolean(*b)) },
        Value::Mapping(fields) => WireValue { kind: Some(WireValueKind::Mapping(encode_map(fields))) },
        Value::Array(items) => WireValue { kind: Some(WireValueKind::Array(encode_array(items))) },
        Value::Null => WireValue { kind: Some(WireValueKind::Null(0)) },
    }
}

/// Encodes the entries of a canonical mapping as a wire mapping, keys
/// kept as they are and order preserved.
pub fn encode_map(fields: &Vec<(String, Value)>) -> (r: WireValueMap)
    ensures
        lift_wire_fields(r.fields@) == spec_encode_fields(lift_value_fields(fields@)),
    decreases fields,
{
    let mut accum: Vec<(String, WireValue)> = Vec::new();
    let mut i: usize = 0;
    while i < fields.len()
        invariant
            i <= fields.len(),
            accum@.len() == i as int,
            forall|j: int| 0 <= j < i as int ==> (#[trigger] accum@[j]).0@ == fields@[j].0@
                && accum@[j].1@ == spec_encode_value(fields@[j].1@),
        decreases fields.len() - i,
    {
        let key = fields[i].0.clone();
        let encoded = encode_value(&fields[i].1);
        accum.push((key, encoded));
        i = i + 1;
    }
    proof {
        let lhs = lift_wire_fields(accum@);
        let rhs = spec_encode_fields(lift_value_fields(fields@));
        assert forall|j: int| 0 <= j < lhs.len() implies lhs[j] == rhs[j] by {
            assert(lift_value_fields(fields@)[j] == (fields@[j].0@, fields@[j].1@));
        }
        assert(lhs =~= rhs);
    }
    WireValueMap { fields: accum }
}

/// Encodes the items of a canonical array as a wire array, order
/// preserved.
pub fn encode_array(items: &Vec<Value>) -> (r: WireValueArray)
    ensures
        lift_wire_values(r.items@) == spec_encode_items(lift_values(items@)),
    decreases items,
{
    let mut accum: Vec<WireValue> = Vec::new();
    let mut i: usize = 0;
    while i < items.len()
        invariant
            i <= items.len(),
            accum@.len() == i as int,
            forall|j: int| 0 <= j < i as int ==> (#[trigger] accum@[j])@ == spec_encode_value(
                items@[j]@,
            ),
        decreases items.len() - i,
    {
        let encoded = encode_value(&items[i]);
        accum.push(encoded);
        i = i + 1;
    }
    proof {
        let lhs = lift_wire_values(accum@);
        let rhs = spec_encode_items(lift_values(items@));
        assert forall|j: int| 0 <= j < lhs.len() implies lhs[j] == rhs[j] by {
            assert(lift_values(items@)[j] == items@[j]@);
        }
        assert(lhs =~= rhs);
    }
    WireValueArray { items: accum }
}

/// Every canonical value round-trips exactly through the wire form:
/// decoding an encoded value always succeeds and reproduces the value.
pub proof fn lemma_value_round_trip(v: ValueModel)
    ensures
        spec_decode_value(spec_encode_value(v)) == Some(v),
    decreases v,
{
    match v {
        ValueModel::Timestamp(t) => {
            crate::scalars::lemma_canonical_timestamp_round_trip(t);
        },
        ValueModel::Mapping(fields) => {
            lemma_fields_round_trip(fields);
        },
        ValueModel::Array(items) => {
            lemma_items_round_trip(items);
        },
        _ => {},
    }
}

/// Mapping entries round-trip exactly, entry by entry.
pub proof fn lemma_fields_round_trip(s: Seq<(Seq<char>, ValueModel)>)
    ensures
        spec_decode_fields(spec_encode_fields(s)) == Some(s),
    decreases s,
{
    let enc = spec_encode_fields(s);
    if s.len() == 0 {
        assert(spec_decode_fields(enc) == Some(Seq::<(Seq<char>, ValueModel)>::empty()));
        assert(s =~= Seq::<(Seq<char>, ValueModel)>::empty());
    } else {
        lemma_fields_round_trip(s.drop_last());
        lemma_value_round_trip(s.last().1);
        assert(enc.drop_last() =~= spec_encode_fields(s.drop_last()));
        assert(enc.last() == (s.last().0, spec_encode_value(s.last().1)));
        assert(spec_decode_fields(enc)->0 =~= s);
    }
}

/// Array items round-trip exactly, item by item.
pub proof fn lemma_items_round_trip(s: Seq<ValueModel>)
    ensures
        spec_decode_items(spec_encode_items(s)) == Some(s),
    decreases s,
{
    let enc = spec_encode_items(s);
    if s.len() == 0 {
        assert(spec_decode_items(enc) == Some(Seq::<ValueModel>::empty()));
        assert(s =~= Seq::<ValueModel>::empty());
    } else {
        lemma_items_round_trip(s.drop_last());
        lemma_value_round_trip(s.last());
        assert(enc.drop_last() =~= spec_encode_items(s.drop_last()));
        assert(enc.last() == spec_encode_value(s.last()));
        assert(spec_decode_items(enc)->0 =~= s);
    }
}

} // verus!
