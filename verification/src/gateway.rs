//! The computing side of the two HTTP-facing gateways.
//!
//! The query gateway hands a client's query to the store and serializes
//! each result row into a mapping from column name to serialized graph
//! value; the event gateway relays each broadcast signal as one stream
//! event carrying the new message's identifier.  The surrounding
//! request handling stays outside the library; these functions are the
//! decisions and conversions it delegates.

use vstd::prelude::*;
use crate::numfmt::dec_seq;
use crate::serialize::{
    json_view, serialize_value, value_model, value_ok, JsonValue, SerializeError,
    SerializeGraphValue,
};
use crate::Signal;

verus! {

/// Whether every value of a result row serializes.
pub open spec fn row_ok(row: Seq<(String, SerializeGraphValue)>) -> bool {
    forall|i: int| 0 <= i < row.len() ==> value_ok((#[trigger] row[i]).1)
}

/// Whether every row of a result serializes.
pub open spec fn rows_ok(rows: Seq<Seq<(String, SerializeGraphValue)>>) -> bool {
    forall|i: int| 0 <= i < rows.len() ==> row_ok(#[trigger] rows[i])
}

/// Serialize one result row: each column name with its serialized
/// value, order kept.  Fails exactly when some value holds a byte
/// sequence that is not valid UTF-8 — fatal for the whole response.
pub fn serialize_row(row: &Vec<(String, SerializeGraphValue)>) -> (r: Result<
    Vec<(String, JsonValue)>,
    SerializeError,
>)
    ensures
        r is Ok <==> row_ok(row@),
        r is Ok ==> r.unwrap()@.len() == row@.len(),
        r is Ok ==> forall|i: int|
            0 <= i < row@.len() ==> (#[trigger] r.unwrap()@[i]).0@ == row@[i].0@ && json_view(
                r.unwrap()@[i].1,
            ) == value_model(row@[i].1),
        r is Err ==> r.unwrap_err() == SerializeError::InvalidUtf8,
{
    let mut out: Vec<(String, JsonValue)> = Vec::new();
    let mut i: usize = 0;
    while i < row.len()
        invariant
            i <= row@.len(),
            out@.len() == i,
            forall|k: int| 0 <= k < i ==> value_ok((#[trigger] row@[k]).1),
            forall|k: int|
                0 <= k < i ==> (#[trigger] out@[k]).0@ == row@[k].0@ && json_view(out@[k].1)
                    == value_model(row@[k].1),
        decreases row@.len() - i,
    {
        match serialize_value(&row[i].1) {
            Err(e) => {
                proof {
                    assert(!value_ok(row@[i as int].1));
                }
                return Err(e);
            },
            Ok(j) => {
                out.push((row[i].0.clone(), j));
            },
        }
        i = i + 1;
    }
    Ok(out)
}

/// Serialize a whole query result: every row in order, each as its
/// column-to-value mapping.  One undecodable byte sequence anywhere
/// fails the whole response.
pub fn serialize_rows(rows: &Vec<Vec<(String, SerializeGraphValue)>>) -> (r: Result<
    Vec<Vec<(String, JsonValue)>>,
    SerializeError,
>)
    ensures
        r is Ok <==> rows_ok(rows@.map_values(|row: Vec<(String, SerializeGraphValue)>| row@)),
        r is Ok ==> r.unwrap()@.len() == rows@.len(),
        r is Ok ==> forall|i: int, j: int|
            0 <= i < rows@.len() && 0 <= j < rows@[i]@.len() ==> {
                &&& (#[trigger] r.unwrap()@[i]@[j]).0@ == rows@[i]@[j].0@
                &&& json_view(r.unwrap()@[i]@[j].1) == value_model(rows@[i]@[j].1)
                &&& r.unwrap()@[i]@.len() == rows@[i]@.len()
            },
        r is Err ==> r.unwrap_err() == SerializeError::InvalidUtf8,
{
    let ghost rows_view = rows@.map_values(|row: Vec<(String, SerializeGraphValue)>| row@);
    let mut out: Vec<Vec<(String, JsonValue)>> = Vec::new();
    let mut i: usize = 0;
    while i < rows.len()
        invariant
            i <= rows@.len(),
            out@.len() == i,
            rows_view == rows@.map_values(|row: Vec<(String, SerializeGraphValue)>| row@),
            forall|k: int| 0 <= k < i ==> row_ok((#[trigger] rows@[k])@),
            forall|k: int, j: int|
                0 <= k < i && 0 <= j < rows@[k]@.len() ==> {
                    &&& (#[trigger] out@[k]@[j]).0@ == rows@[k]@[j].0@
                    &&& json_view(out@[k]@[j].1) == value_model(rows@[k]@[j].1)
                    &&& out@[k]@.len() == rows@[k]@.len()
                },
        decreases rows@.len() - i,
    {
        match serialize_row(&rows[i]) {
            Err(e) => {
                proof {
                    assert(rows_view[i as int] == rows@[i as int]@);
                    assert(!row_ok(rows_view[i as int]));
                }
                return Err(e);
            },
            Ok(row) => {
                out.push(row);
            },
        }
        i = i + 1;
    }
    proof {
        assert(forall|k: int|
            0 <= k < rows@.len() ==> #[trigger] rows_view[k] == rows@[k]@);
    }
    Ok(out)
}

/// Turn one broadcast signal into at most one stream event: a
/// new-message signal becomes an event whose payload is the identifier
/// in decimal and whose event type is the fixed new-message tag; the
/// stop marker produces no event.
pub fn sse_event_of(signal: &Signal) -> (r: Option<(String, &'static str)>)
    ensures
        signal matches Signal::NewMessage(id) ==> (r matches Some(e) && e.0@ == dec_seq(id as nat)
            && e.1@ == "newMessage"@),
        signal is Stop ==> r is None,
{
    match signal {
        Signal::NewMessage(id) => {
            let payload = crate::numfmt::u64_to_dec(*id as u64);
            Some((payload, "newMessage"))
        },
        Signal::Stop => None,
    }
}

} // verus!
