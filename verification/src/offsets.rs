//! Trial decoding of connector offset records.
//!
//! The wire format carries no discriminator between the offset shapes of
//! the two connector families. A record is decoded by trial, in a fixed,
//! documented order: the generic source shape first, then the fixed sink
//! shape; a record matching neither fails with an error naming both
//! attempted shapes.

use vstd::prelude::*;
use crate::json::Json;
use crate::json::lookup;
use crate::json::spec_lookup;
use crate::models::ConnectorOffset;
use crate::models::SinkConnectorOffset;
use crate::models::SinkConnectorOffsetOffset;
use crate::models::SinkConnectorOffsetPartition;
use crate::models::SourceConnectorOffset;

verus! {

/// A decode strategy for one part of a source offset: the caller supplies
/// the partition and offset types of its connector, with their shapes.
pub trait FromJson: Sized {
    /// Whether a JSON value has this type's shape.
    spec fn spec_matches(v: Json) -> bool;

    /// Whether this value is the decoding of `v`.
    spec fn spec_models(self, v: Json) -> bool;

    /// Decodes `v`, succeeding exactly on values of this type's shape.
    fn from_json(v: &Json) -> (r: Option<Self>)
        ensures
            r is Some <==> Self::spec_matches(*v),
            r matches Some(x) ==> x.spec_models(*v);
}

impl FromJson for u64 {
    /// A non-negative integral number.
    open spec fn spec_matches(v: Json) -> bool {
        v matches Json::Int(i) && i >= 0
    }

    open spec fn spec_models(self, v: Json) -> bool {
        v matches Json::Int(i) && i >= 0 && self == i as u64
    }

    fn from_json(v: &Json) -> (r: Option<u64>) {
        match v {
            Json::Int(i) => if *i >= 0 {
                Some(*i as u64)
            } else {
                None
            },
            _ => None,
        }
    }
}

impl FromJson for String {
    /// A string value.
    open spec fn spec_matches(v: Json) -> bool {
        v is Str
    }

    open spec fn spec_models(self, v: Json) -> bool {
        v matches Json::Str(s) && self@ == s@
    }

    fn from_json(v: &Json) -> (r: Option<String>) {
        match v {
            Json::Str(s) => Some(s.clone()),
            _ => None,
        }
    }
}

impl FromJson for Vec<(String, i64)> {
    /// An object all of whose values are integral numbers: the flat map
    /// shape many source connectors use for their partitions and offsets.
    open spec fn spec_matches(v: Json) -> bool {
        v matches Json::Obj(fields) && forall|k: int|
            0 <= k < fields@.len() ==> fields@[k].1 is Int
    }

    open spec fn spec_models(self, v: Json) -> bool {
        &&& v matches Json::Obj(fields)
        &&& self@.len() == fields@.len()
        &&& forall|k: int|
            0 <= k < fields@.len() ==> self@[k].0@ == fields@[k].0@ && fields@[k].1
                == Json::Int(self@[k].1)
    }

    fn from_json(v: &Json) -> (r: Option<Vec<(String, i64)>>) {
        match v {
            Json::Obj(fields) => {
                let mut out: Vec<(String, i64)> = Vec::new();
                let mut i: usize = 0;
                while i < fields.len()
                    invariant
                        *v == Json::Obj(*fields),
                        i <= fields@.len(),
                        out@.len() == i,
                        forall|k: int|
                            0 <= k < i ==> out@[k].0@ == fields@[k].0@ && fields@[k].1
                                == Json::Int(out@[k].1),
                    decreases fields@.len() - i,
                {
                    match &fields[i].1 {
                        Json::Int(n) => {
                            out.push((fields[i].0.clone(), *n));
                        },
                        _ => {
                            proof {
                                assert(!((*v)->Obj_0@[i as int].1 is Int));
                            }
                            return None;
                        },
                    }
                    i = i + 1;
                }
                Some(out)
            },
            _ => None,
        }
    }
}

/// Whether a JSON value has the partition shape of a sink offset: a topic
/// string and a non-negative partition number.
pub open spec fn spec_sink_partition_matches(v: Json) -> bool {
    &&& v matches Json::Obj(fields)
    &&& spec_lookup(fields@, "kafka_topic"@) matches Some(t) && t is Str
    &&& spec_lookup(fields@, "kafka_partition"@) matches Some(n) && n matches Json::Int(i) && i
        >= 0
}

/// The decoded partition part of a sink offset.
pub open spec fn spec_sink_partition_of(v: Json) -> SinkConnectorOffsetPartition
    recommends
        spec_sink_partition_matches(v),
{
    SinkConnectorOffsetPartition {
        kafka_topic: spec_lookup(v->Obj_0@, "kafka_topic"@)->0->Str_0,
        kafka_partition: spec_lookup(v->Obj_0@, "kafka_partition"@)->0->Int_0 as u64,
    }
}

/// Whether a JSON value has the offset shape of a sink offset: a single
/// offset string.
pub open spec fn spec_sink_offset_matches(v: Json) -> bool {
    &&& v matches Json::Obj(fields)
    &&& spec_lookup(fields@, "offset"@) matches Some(o) && o is Str
}

/// The decoded offset part of a sink offset.
pub open spec fn spec_sink_offset_of(v: Json) -> SinkConnectorOffsetOffset
    recommends
        spec_sink_offset_matches(v),
{
    SinkConnectorOffsetOffset { offset: spec_lookup(v->Obj_0@, "offset"@)->0->Str_0 }
}

/// Whether a JSON record has the fixed sink offset shape.
pub open spec fn spec_sink_matches(v: Json) -> bool {
    &&& v matches Json::Obj(fields)
    &&& spec_lookup(fields@, "partition"@) matches Some(p) && spec_sink_partition_matches(p)
    &&& spec_lookup(fields@, "offset"@) matches Some(o) && spec_sink_offset_matches(o)
}

/// The decoded sink offset record.
pub open spec fn spec_sink_of(v: Json) -> SinkConnectorOffset
    recommends
        spec_sink_matches(v),
{
    SinkConnectorOffset {
        partition: spec_sink_partition_of(spec_lookup(v->Obj_0@, "partition"@)->0),
        offset: spec_sink_offset_of(spec_lookup(v->Obj_0@, "offset"@)->0),
    }
}

/// Whether a JSON record has the source offset shape for the given
/// partition and offset types: both fields present and of their shapes.
pub open spec fn spec_source_matches<P: FromJson, O: FromJson>(v: Json) -> bool {
    &&& v matches Json::Obj(fields)
    &&& spec_lookup(fields@, "partition"@) matches Some(p) && P::spec_matches(p)
    &&& spec_lookup(fields@, "offset"@) matches Some(o) && O::spec_matches(o)
}

/// Failure of an offset decode: the record matched neither attempted
/// shape.
#[derive(Clone, Copy, Debug, PartialEq, Eq, Structural)]
pub struct OffsetDecodeError;

impl OffsetDecodeError {
    /// Names both shapes the decoder attempted.
    pub fn message(&self) -> (r: &'static str)
        ensures
            r@ == "the record matches neither the source offset shape nor the sink offset shape"@,
    {
        "the record matches neither the source offset shape nor the sink offset shape"
    }
}

/// Decodes the partition part of a sink offset.
fn decode_sink_partition(v: &Json) -> (r: Option<SinkConnectorOffsetPartition>)
    ensures
        r is Some <==> spec_sink_partition_matches(*v),
        r matches Some(x) ==> x == spec_sink_partition_of(*v),
{
    match v {
        Json::Obj(fields) => {
            let topic = match lookup(fields, "kafka_topic") {
                Some(Json::Str(s)) => s,
                _ => {
                    return None;
                },
            };
            let number = match lookup(fields, "kafka_partition") {
                Some(Json::Int(i)) => *i,
                _ => {
                    return None;
                },
            };
            if number >= 0 {
                Some(
                    SinkConnectorOffsetPartition {
                        kafka_topic: topic.clone(),
                        kafka_partition: number as u64,
                    },
                )
            } else {
                None
            }
        },
        _ => None,
    }
}

/// Decodes the offset part of a sink offset.
fn decode_sink_offset_part(v: &Json) -> (r: Option<SinkConnectorOffsetOffset>)
    ensures
        r is Some <==> spec_sink_offset_matches(*v),
        r matches Some(x) ==> x == spec_sink_offset_of(*v),
{
    match v {
        Json::Obj(fields) => match lookup(fields, "offset") {
            Some(Json::Str(s)) => Some(SinkConnectorOffsetOffset { offset: s.clone() }),
            _ => None,
        },
        _ => None,
    }
}

/// Decodes a whole record against the fixed sink shape.
fn decode_sink(v: &Json) -> (r: Option<SinkConnectorOffset>)
    ensures
        r is Some <==> spec_sink_matches(*v),
        r matches Some(x) ==> x == spec_sink_of(*v),
{
    match v {
        Json::Obj(fields) => {
            let partition = match lookup(fields, "partition") {
                Some(p) => match decode_sink_partition(p) {
                    Some(partition) => partition,
                    None => {
                        return None;
                    },
                },
                None => {
                    return None;
                },
            };
            let offset = match lookup(fields, "offset") {
                Some(o) => match decode_sink_offset_part(o) {
                    Some(offset) => offset,
                    None => {
                        return None;
                    },
                },
                None => {
                    return None;
                },
            };
            Some(SinkConnectorOffset { partition, offset })
        },
        _ => None,
    }
}

/// Decodes one offset record by trial: the source shape for `P` and `O`
/// first, then the fixed sink shape; a record matching neither fails with
/// an error naming both attempted shapes.
pub fn decode_offset<P: FromJson, O: FromJson>(v: &Json) -> (r: Result<
    ConnectorOffset<P, O>,
    OffsetDecodeError,
>)
    ensures
        spec_source_matches::<P, O>(*v) ==> (r matches Ok(c) && c matches ConnectorOffset::Source(
            s,
        ) && s.partition.spec_models(spec_lookup((*v)->Obj_0@, "partition"@)->0)
            && s.offset.spec_models(spec_lookup((*v)->Obj_0@, "offset"@)->0)),
        !spec_source_matches::<P, O>(*v) && spec_sink_matches(*v) ==> r == Ok::<
            ConnectorOffset<P, O>,
            OffsetDecodeError,
        >(ConnectorOffset::Sink(spec_sink_of(*v))),
        r is Err <==> !spec_source_matches::<P, O>(*v) && !spec_sink_matches(*v),
{
    match v {
        Json::Obj(fields) => {
            let partition = lookup(fields, "partition");
            let offset = lookup(fields, "offset");
            match (partition, offset) {
                (Some(p), Some(o)) => {
                    let decoded_p = P::from_json(p);
                    let decoded_o = O::from_json(o);
                    match (decoded_p, decoded_o) {
                        (Some(dp), Some(dof)) => {
                            return Ok(
                                ConnectorOffset::Source(
                                    SourceConnectorOffset { partition: dp, offset: dof },
                                ),
                            );
                        },
                        _ => (),
                    }
                },
                _ => (),
            }
            match decode_sink(v) {
                Some(sink) => Ok(ConnectorOffset::Sink(sink)),
                None => Err(OffsetDecodeError),
            }
        },
        _ => Err(OffsetDecodeError),
    }
}

} // verus!
