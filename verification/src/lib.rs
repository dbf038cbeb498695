//! Transcoding layer between the canonical in-memory event model of a
//! telemetry pipeline and the wire schema used to move events between
//! pipeline stages.
//!
//! The wire schema carries two generations of encoding for several metric
//! shapes: parallel-array "legacy" encodings and struct-of-pairs "current"
//! encodings. The codec accepts both generations on read and always emits
//! the current form on write.

use vstd::prelude::*;

pub mod composer;
pub mod event;
pub mod metric_codec;
pub mod value_codec;
pub mod wire;
pub mod scalars;

verus! {

/// The mathematical model of a sequence of strings.
pub open spec fn lift_strings(s: Seq<String>) -> Seq<Seq<char>> {
    Seq::new(s.len(), |i: int| s[i]@)
}

/// The mathematical model of a sequence of string pairs.
pub open spec fn lift_string_pairs(s: Seq<(String, String)>) -> Seq<(Seq<char>, Seq<char>)> {
    Seq::new(s.len(), |i: int| (s[i].0@, s[i].1@))
}

} // verus!
