//! Serialization of heterogeneous graph query results into a uniform
//! JSON-compatible tree.
//!
//! A query result row maps column names to polymorphic graph values: a
//! node, a relationship, or a scalar, where a scalar may itself be a
//! nested sequence of graph scalars.  The serializer turns such a value
//! into a tree of primitive JSON types; a byte-sequence scalar that is
//! not valid UTF-8 is a fatal error for that response, never silently
//! substituted.

use vstd::prelude::*;
use vstd::utf8::{decode_utf8, valid_utf8};
use crate::message::bytes_as_str;

verus! {

/// A scalar graph value: null, integer, byte sequence, nested sequence,
/// status text, or the boolean-as-status marker.
#[derive(Debug, PartialEq, Eq)]
pub enum Scalar {
    Nil,
    Int(i64),
    Data(Vec<u8>),
    Bulk(Vec<Scalar>),
    Status(String),
    Okay,
}

/// A node returned by the store: identifier, labels, and scalar-valued
/// properties in a fixed order.
#[derive(Debug, PartialEq, Eq)]
pub struct NodeData {
    pub id: u64,
    pub labels: Vec<String>,
    pub properties: Vec<(String, Scalar)>,
}

/// A relationship returned by the store: identifier, type name, the
/// identifiers of its endpoints, and scalar-valued properties.
#[derive(Debug, PartialEq, Eq)]
pub struct RelationData {
    pub id: u64,
    pub rel_type: String,
    pub src_node: u64,
    pub dest_node: u64,
    pub properties: Vec<(String, Scalar)>,
}

/// A polymorphic graph value: the closed sum of the three result
/// shapes.
#[derive(Debug, PartialEq, Eq)]
pub enum SerializeGraphValue {
    Node(NodeData),
    Scalar(Scalar),
    Relation(RelationData),
}

/// A tree of primitive JSON-compatible values: the serializer's output.
/// Numbers are held in a type wide enough for both signed scalars and
/// unsigned identifiers.
#[derive(Debug, PartialEq, Eq)]
pub enum JsonValue {
    Null,
    Int(i128),
    Str(String),
    Arr(Vec<JsonValue>),
    Obj(Vec<(String, JsonValue)>),
}

/// The mathematical picture of a JSON tree, over sequences and
/// unbounded integers.
#[verifier::ext_equal]
pub enum JsonModel {
    Null,
    Int(int),
    Str(Seq<char>),
    Arr(Seq<JsonModel>),
    Obj(Seq<(Seq<char>, JsonModel)>),
}

/// The model of an executable JSON tree.
pub open spec fn json_view(j: JsonValue) -> JsonModel
    decreases j,
{
    match j {
        JsonValue::Null => JsonModel::Null,
        JsonValue::Int(n) => JsonModel::Int(n as int),
        JsonValue::Str(s) => JsonModel::Str(s@),
        JsonValue::Arr(v) => JsonModel::Arr(json_views(v@)),
        JsonValue::Obj(fields) => JsonModel::Obj(json_field_views(fields@)),
    }
}

/// The models of a sequence of JSON trees, in order.
pub open spec fn json_views(s: Seq<JsonValue>) -> Seq<JsonModel>
    decreases s,
{
    if s.len() == 0 {
        Seq::empty()
    } else {
        json_views(s.drop_last()).push(json_view(s.last()))
    }
}

/// The models of a sequence of named JSON trees, in order.
pub open spec fn json_field_views(s: Seq<(String, JsonValue)>) -> Seq<(Seq<char>, JsonModel)>
    decreases s,
{
    if s.len() == 0 {
        Seq::empty()
    } else {
        json_field_views(s.drop_last()).push((s.last().0@, json_view(s.last().1)))
    }
}

/// [`json_views`] maps the sequence elementwise.
pub proof fn lemma_json_views_index(s: Seq<JsonValue>)
    ensures
        json_views(s).len() == s.len(),
        forall|i: int| 0 <= i < s.len() ==> json_views(s)[i] == json_view(#[trigger] s[i]),
    decreases s,
{
    if s.len() > 0 {
        lemma_json_views_index(s.drop_last());
        assert(forall|i: int| 0 <= i < s.len() - 1 ==> #[trigger] s[i] == s.drop_last()[i]);
    }
}

/// [`json_field_views`] maps the sequence elementwise.
pub proof fn lemma_json_field_views_index(s: Seq<(String, JsonValue)>)
    ensures
        json_field_views(s).len() == s.len(),
        forall|i: int|
            0 <= i < s.len() ==> json_field_views(s)[i] == ((#[trigger] s[i]).0@, json_view(
                s[i].1,
            )),
    decreases s,
{
    if s.len() > 0 {
        lemma_json_field_views_index(s.drop_last());
        assert(forall|i: int| 0 <= i < s.len() - 1 ==> #[trigger] s[i] == s.drop_last()[i]);
    }
}

/// Whether a scalar serializes at all: every byte sequence in it must
/// be valid UTF-8.
pub open spec fn scalar_ok(s: Scalar) -> bool
    decreases s,
{
    match s {
        Scalar::Data(v) => valid_utf8(v@),
        Scalar::Bulk(vs) => scalars_ok(vs@),
        _ => true,
    }
}

/// Whether every scalar of a sequence serializes.
pub open spec fn scalars_ok(s: Seq<Scalar>) -> bool
    decreases s,
{
    if s.len() == 0 {
        true
    } else {
        scalars_ok(s.drop_last()) && scalar_ok(s.last())
    }
}

/// What a scalar serializes to: null to JSON null, an integer to a JSON
/// number, bytes to the decoded string, a nested sequence to an array
/// of recursively serialized elements, status text to a string, and the
/// boolean-status marker to the literal string "OK".
pub open spec fn scalar_model(s: Scalar) -> JsonModel
    decreases s,
{
    match s {
        Scalar::Nil => JsonModel::Null,
        Scalar::Int(n) => JsonModel::Int(n as int),
        Scalar::Data(v) => JsonModel::Str(decode_utf8(v@)),
        Scalar::Bulk(vs) => JsonModel::Arr(scalar_models(vs@)),
        Scalar::Status(t) => JsonModel::Str(t@),
        Scalar::Okay => JsonModel::Str("OK"@),
    }
}

/// What a sequence of scalars serializes to, elementwise.
pub open spec fn scalar_models(s: Seq<Scalar>) -> Seq<JsonModel>
    decreases s,
{
    if s.len() == 0 {
        Seq::empty()
    } else {
        scalar_models(s.drop_last()).push(scalar_model(s.last()))
    }
}

/// [`scalars_ok`] holds exactly when every element serializes.
pub proof fn lemma_scalars_ok_iff(s: Seq<Scalar>)
    ensures
        scalars_ok(s) <==> (forall|i: int| 0 <= i < s.len() ==> scalar_ok(#[trigger] s[i])),
    decreases s,
{
    if s.len() > 0 {
        lemma_scalars_ok_iff(s.drop_last());
        assert(forall|i: int| 0 <= i < s.len() - 1 ==> #[trigger] s[i] == s.drop_last()[i]);
    }
}

/// [`scalar_models`] maps the sequence elementwise.
pub proof fn lemma_scalar_models_index(s: Seq<Scalar>)
    ensures
        scalar_models(s).len() == s.len(),
        forall|i: int| 0 <= i < s.len() ==> scalar_models(s)[i] == scalar_model(#[trigger] s[i]),
    decreases s,
{
    if s.len() > 0 {
        lemma_scalar_models_index(s.drop_last());
        assert(forall|i: int| 0 <= i < s.len() - 1 ==> #[trigger] s[i] == s.drop_last()[i]);
    }
}

/// Whether every property value of an entity serializes.
pub open spec fn props_ok(ps: Seq<(String, Scalar)>) -> bool {
    forall|i: int| 0 <= i < ps.len() ==> scalar_ok((#[trigger] ps[i]).1)
}

/// What a property mapping serializes to: each name paired with its
/// serialized scalar, order kept.
pub open spec fn props_model(ps: Seq<(String, Scalar)>) -> Seq<(Seq<char>, JsonModel)> {
    Seq::new(ps.len(), |i: int| (ps[i].0@, scalar_model(ps[i].1)))
}

/// What a node serializes to: an object with exactly the keys `id`,
/// `labels` and `properties`, in that order.
pub open spec fn node_model(n: NodeData) -> JsonModel {
    JsonModel::Obj(
        seq![
            ("id"@, JsonModel::Int(n.id as int)),
            ("labels"@, JsonModel::Arr(Seq::new(n.labels@.len(), |i: int| JsonModel::Str(n.labels@[i]@)))),
            ("properties"@, JsonModel::Obj(props_model(n.properties@))),
        ],
    )
}

/// What a relationship serializes to: an object with exactly the keys
/// `id`, `rel_type`, `src_node`, `dest_node` and `properties`, in that
/// order.
pub open spec fn relation_model(r: RelationData) -> JsonModel {
    JsonModel::Obj(
        seq![
            ("id"@, JsonModel::Int(r.id as int)),
            ("rel_type"@, JsonModel::Str(r.rel_type@)),
            ("src_node"@, JsonModel::Int(r.src_node as int)),
            ("dest_node"@, JsonModel::Int(r.dest_node as int)),
            ("properties"@, JsonModel::Obj(props_model(r.properties@))),
        ],
    )
}

/// Whether a graph value serializes.
pub open spec fn value_ok(v: SerializeGraphValue) -> bool {
    match v {
        SerializeGraphValue::Node(n) => props_ok(n.properties@),
        SerializeGraphValue::Scalar(s) => scalar_ok(s),
        SerializeGraphValue::Relation(r) => props_ok(r.properties@),
    }
}

/// What a graph value serializes to.
pub open spec fn value_model(v: SerializeGraphValue) -> JsonModel {
    match v {
        SerializeGraphValue::Node(n) => node_model(n),
        SerializeGraphValue::Scalar(s) => scalar_model(s),
        SerializeGraphValue::Relation(r) => relation_model(r),
    }
}

/// Serializer fidelity, shape: every node serializes to an object with
/// exactly the three keys `id`, `labels` and `properties`, in that
/// order, whatever the node holds.
pub proof fn lemma_node_serialization_shape(n: NodeData)
    ensures
        node_model(n) matches JsonModel::Obj(fields) && fields.len() == 3 && fields[0].0 == "id"@
            && fields[1].0 == "labels"@ && fields[2].0 == "properties"@,
{
}

/// Serializer fidelity, determinism: the serialized tree is a function
/// of the graph value alone, so any two successful serializations of
/// the same value model the same tree.
pub proof fn lemma_serialization_deterministic(
    v: SerializeGraphValue,
    r1: JsonValue,
    r2: JsonValue,
)
    requires
        json_view(r1) == value_model(v),
        json_view(r2) == value_model(v),
    ensures
        json_view(r1) == json_view(r2),
{
}

/// The one serialization failure: a byte sequence that is not valid
/// UTF-8.
#[derive(Debug, PartialEq, Eq, Structural)]
pub enum SerializeError {
    InvalidUtf8,
}

/// Serialize one scalar.  Succeeds exactly when every byte sequence in
/// the value is valid UTF-8, and then returns exactly the modelled
/// tree.
#[verifier::loop_isolation(false)]
pub fn serialize_scalar(s: &Scalar) -> (r: Result<JsonValue, SerializeError>)
    ensures
        r is Ok <==> scalar_ok(*s),
        r is Ok ==> json_view(r.unwrap()) == scalar_model(*s),
        r is Err ==> r.unwrap_err() == SerializeError::InvalidUtf8,
    decreases *s,
{
    match s {
        Scalar::Nil => Ok(JsonValue::Null),
        Scalar::Int(n) => Ok(JsonValue::Int(*n as i128)),
        Scalar::Data(v) => {
            match bytes_as_str(v.as_slice()) {
                None => Err(SerializeError::InvalidUtf8),
                Some(text) => Ok(JsonValue::Str(text.to_owned())),
            }
        },
        Scalar::Status(t) => Ok(JsonValue::Str(t.clone())),
        Scalar::Okay => Ok(JsonValue::Str("OK".to_owned())),
        Scalar::Bulk(vs) => {
            let mut out: Vec<JsonValue> = Vec::new();
            let mut i: usize = 0;
            while i < vs.len()
                invariant
                    i <= vs@.len(),
                    out@.len() == i,
                    forall|k: int| 0 <= k < i ==> scalar_ok(#[trigger] vs@[k]),
                    forall|k: int|
                        0 <= k < i ==> json_view(#[trigger] out@[k]) == scalar_model(vs@[k]),
                decreases vs@.len() - i,
            {
                proof {
                    assert(decreases_to!(*s => (*s)->Bulk_0));
                    assert((*s)->Bulk_0 == *vs);
                    assert(decreases_to!(*vs => vs@));
                    assert(decreases_to!(vs@ => vs@[i as int]));
                    assert(decreases_to!(*s => vs@[i as int]));
                }
                match serialize_scalar(&vs[i]) {
                    Err(e) => {
                        proof {
                            lemma_scalars_ok_iff(vs@);
                        }
                        return Err(e);
                    },
                    Ok(j) => {
                        out.push(j);
                    },
                }
                i = i + 1;
            }
            let ghost out_snap = out@;
            let r = JsonValue::Arr(out);
            proof {
                lemma_scalars_ok_iff(vs@);
                lemma_json_views_index(out_snap);
                lemma_scalar_models_index(vs@);
                assert forall|k: int| 0 <= k < vs@.len() implies json_views(out_snap)[k]
                    == scalar_models(vs@)[k] by {
                    assert(json_views(out_snap)[k] == json_view(out_snap[k]));
                    assert(scalar_models(vs@)[k] == scalar_model(vs@[k]));
                }
                assert(json_views(out_snap) =~= scalar_models(vs@));
            }
            Ok(r)
        },
    }
}

/// Serialize a property mapping.  Succeeds exactly when every value
/// serializes, and then returns the object fields in the given order.
pub fn serialize_properties(ps: &Vec<(String, Scalar)>) -> (r: Result<
    Vec<(String, JsonValue)>,
    SerializeError,
>)
    ensures
        r is Ok <==> props_ok(ps@),
        r is Ok ==> r.unwrap()@.len() == ps@.len(),
        r is Ok ==> forall|i: int|
            0 <= i < ps@.len() ==> (#[trigger] r.unwrap()@[i]).0@ == ps@[i].0@ && json_view(
                r.unwrap()@[i].1,
            ) == scalar_model(ps@[i].1),
        r is Err ==> r.unwrap_err() == SerializeError::InvalidUtf8,
{
    let mut out: Vec<(String, JsonValue)> = Vec::new();
    let mut i: usize = 0;
    while i < ps.len()
        invariant
            i <= ps@.len(),
            out@.len() == i,
            forall|k: int| 0 <= k < i ==> scalar_ok((#[trigger] ps@[k]).1),
            forall|k: int|
                0 <= k < i ==> (#[trigger] out@[k]).0@ == ps@[k].0@ && json_view(out@[k].1)
                    == scalar_model(ps@[k].1),
        decreases ps@.len() - i,
    {
        match serialize_scalar(&ps[i].1) {
            Err(e) => {
                proof {
                    assert(!scalar_ok(ps@[i as int].1));
                }
                return Err(e);
            },
            Ok(j) => {
                out.push((ps[i].0.clone(), j));
            },
        }
        i = i + 1;
    }
    Ok(out)
}

/// Serialize one graph value: a node to its three-key object, a
/// relationship to its five-key object, a scalar as itself.
pub fn serialize_value(v: &SerializeGraphValue) -> (r: Result<JsonValue, SerializeError>)
    ensures
        r is Ok <==> value_ok(*v),
        r is Ok ==> json_view(r.unwrap()) == value_model(*v),
        r is Err ==> r.unwrap_err() == SerializeError::InvalidUtf8,
{
    match v {
        SerializeGraphValue::Scalar(s) => serialize_scalar(s),
        SerializeGraphValue::Node(n) => {
            let props = match serialize_properties(&n.properties) {
                Err(e) => {
                    return Err(e);
                },
                Ok(p) => p,
            };
            let mut labels: Vec<JsonValue> = Vec::new();
            let mut i: usize = 0;
            while i < n.labels.len()
                invariant
                    i <= n.labels@.len(),
                    labels@.len() == i,
                    forall|k: int|
                        0 <= k < i ==> json_view(#[trigger] labels@[k]) == JsonModel::Str(
                            n.labels@[k]@,
                        ),
                decreases n.labels@.len() - i,
            {
                labels.push(JsonValue::Str(n.labels[i].clone()));
                i = i + 1;
            }
            let ghost labels_snap = labels@;
            let ghost props_snap = props@;
            let mut fields: Vec<(String, JsonValue)> = Vec::new();
            fields.push(("id".to_owned(), JsonValue::Int(n.id as i128)));
            fields.push(("labels".to_owned(), JsonValue::Arr(labels)));
            fields.push(("properties".to_owned(), JsonValue::Obj(props)));
            let ghost fields_snap = fields@;
            let r = JsonValue::Obj(fields);
            proof {
                lemma_json_views_index(labels_snap);
                lemma_json_field_views_index(props_snap);
                lemma_json_field_views_index(fields_snap);
                let labels_m = Seq::new(n.labels@.len(), |k: int| JsonModel::Str(n.labels@[k]@));
                assert forall|k: int| 0 <= k < n.labels@.len() implies json_views(labels_snap)[k]
                    == labels_m[k] by {
                    assert(json_views(labels_snap)[k] == json_view(labels_snap[k]));
                }
                assert(json_views(labels_snap) =~= labels_m);
                assert forall|k: int|
                    0 <= k < n.properties@.len() implies json_field_views(props_snap)[k]
                    == props_model(n.properties@)[k] by {
                    assert(json_field_views(props_snap)[k] == (props_snap[k].0@, json_view(
                        props_snap[k].1,
                    )));
                }
                assert(json_field_views(props_snap) =~= props_model(n.properties@));
                assert forall|k: int| 0 <= k < 3 implies json_field_views(fields_snap)[k]
                    == node_model(*n)->Obj_0[k] by {
                    assert(json_field_views(fields_snap)[k] == (fields_snap[k].0@, json_view(
                        fields_snap[k].1,
                    )));
                }
                assert(json_field_views(fields_snap) =~= node_model(*n)->Obj_0);
                assert(json_view(r) =~= node_model(*n));
            }
            Ok(r)
        },
        SerializeGraphValue::Relation(rel) => {
            let props = match serialize_properties(&rel.properties) {
                Err(e) => {
                    return Err(e);
                },
                Ok(p) => p,
            };
            let ghost props_snap = props@;
            let mut fields: Vec<(String, JsonValue)> = Vec::new();
            fields.push(("id".to_owned(), JsonValue::Int(rel.id as i128)));
            fields.push(("rel_type".to_owned(), JsonValue::Str(rel.rel_type.clone())));
            fields.push(("src_node".to_owned(), JsonValue::Int(rel.src_node as i128)));
            fields.push(("dest_node".to_owned(), JsonValue::Int(rel.dest_node as i128)));
            fields.push(("properties".to_owned(), JsonValue::Obj(props)));
            let ghost fields_snap = fields@;
            let r = JsonValue::Obj(fields);
            proof {
                lemma_json_field_views_index(props_snap);
                lemma_json_field_views_index(fields_snap);
                assert forall|k: int|
                    0 <= k < rel.properties@.len() implies json_field_views(props_snap)[k]
                    == props_model(rel.properties@)[k] by {
                    assert(json_field_views(props_snap)[k] == (props_snap[k].0@, json_view(
                        props_snap[k].1,
                    )));
                }
                assert(json_field_views(props_snap) =~= props_model(rel.properties@));
                assert forall|k: int| 0 <= k < 5 implies json_field_views(fields_snap)[k]
                    == relation_model(*rel)->Obj_0[k] by {
                    assert(json_field_views(fields_snap)[k] == (fields_snap[k].0@, json_view(
                        fields_snap[k].1,
                    )));
                }
                assert(json_field_views(fields_snap) =~= relation_model(*rel)->Obj_0);
                assert(json_view(r) =~= relation_model(*rel));
            }
            Ok(r)
        },
    }
}

} // verus!
