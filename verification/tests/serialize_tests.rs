use ezsyslog::serialize::{
    serialize_properties, serialize_scalar, serialize_value, JsonValue, NodeData, RelationData,
    Scalar, SerializeError, SerializeGraphValue,
};

#[test]
fn nil_is_null() {
    assert_eq!(serialize_scalar(&Scalar::Nil), Ok(JsonValue::Null));
}

#[test]
fn int_is_number() {
    assert_eq!(serialize_scalar(&Scalar::Int(-7)), Ok(JsonValue::Int(-7)));
}

#[test]
fn bytes_decode_to_string() {
    let s = Scalar::Data("héllo".as_bytes().to_vec());
    assert_eq!(serialize_scalar(&s), Ok(JsonValue::Str("héllo".to_string())));
}

#[test]
fn invalid_utf8_is_fatal() {
    let s = Scalar::Data(vec![0xff, 0x80]);
    assert_eq!(serialize_scalar(&s), Err(SerializeError::InvalidUtf8));
}

#[test]
fn status_is_string() {
    let s = Scalar::Status("QUEUED".to_string());
    assert_eq!(serialize_scalar(&s), Ok(JsonValue::Str("QUEUED".to_string())));
}

#[test]
fn okay_is_ok_literal() {
    assert_eq!(serialize_scalar(&Scalar::Okay), Ok(JsonValue::Str("OK".to_string())));
}

#[test]
fn nested_sequence_depth_three() {
    let tree = Scalar::Bulk(vec![
        Scalar::Int(1),
        Scalar::Bulk(vec![
            Scalar::Status("a".to_string()),
            Scalar::Bulk(vec![Scalar::Nil, Scalar::Int(2)]),
        ]),
    ]);
    let expected = JsonValue::Arr(vec![
        JsonValue::Int(1),
        JsonValue::Arr(vec![
            JsonValue::Str("a".to_string()),
            JsonValue::Arr(vec![JsonValue::Null, JsonValue::Int(2)]),
        ]),
    ]);
    assert_eq!(serialize_scalar(&tree), Ok(expected));
}

#[test]
fn nested_sequence_is_deterministic() {
    let make = || {
        Scalar::Bulk(vec![Scalar::Bulk(vec![Scalar::Bulk(vec![Scalar::Int(3)])]), Scalar::Okay])
    };
    assert_eq!(serialize_scalar(&make()), serialize_scalar(&make()));
}

#[test]
fn invalid_utf8_deep_in_sequence_is_fatal() {
    let tree = Scalar::Bulk(vec![Scalar::Bulk(vec![Scalar::Data(vec![0xc0])])]);
    assert_eq!(serialize_scalar(&tree), Err(SerializeError::InvalidUtf8));
}

#[test]
fn node_has_exactly_three_keys() {
    let n = NodeData {
        id: 5,
        labels: vec!["Message".to_string()],
        properties: vec![("msg".to_string(), Scalar::Data(b"hi".to_vec()))],
    };
    let out = serialize_value(&SerializeGraphValue::Node(n)).unwrap();
    let expected = JsonValue::Obj(vec![
        ("id".to_string(), JsonValue::Int(5)),
        ("labels".to_string(), JsonValue::Arr(vec![JsonValue::Str("Message".to_string())])),
        (
            "properties".to_string(),
            JsonValue::Obj(vec![("msg".to_string(), JsonValue::Str("hi".to_string()))]),
        ),
    ]);
    assert_eq!(out, expected);
}

#[test]
fn large_node_id_survives() {
    let n = NodeData { id: u64::MAX, labels: vec![], properties: vec![] };
    let out = serialize_value(&SerializeGraphValue::Node(n)).unwrap();
    match out {
        JsonValue::Obj(fields) => assert_eq!(fields[0].1, JsonValue::Int(u64::MAX as i128)),
        other => panic!("expected object, got {:?}", other),
    }
}

#[test]
fn relation_has_exactly_five_keys() {
    let r = RelationData {
        id: 9,
        rel_type: "from".to_string(),
        src_node: 1,
        dest_node: 2,
        properties: vec![],
    };
    let out = serialize_value(&SerializeGraphValue::Relation(r)).unwrap();
    let expected = JsonValue::Obj(vec![
        ("id".to_string(), JsonValue::Int(9)),
        ("rel_type".to_string(), JsonValue::Str("from".to_string())),
        ("src_node".to_string(), JsonValue::Int(1)),
        ("dest_node".to_string(), JsonValue::Int(2)),
        ("properties".to_string(), JsonValue::Obj(vec![])),
    ]);
    assert_eq!(out, expected);
}

#[test]
fn properties_keep_order() {
    let ps = vec![
        ("b".to_string(), Scalar::Int(2)),
        ("a".to_string(), Scalar::Int(1)),
    ];
    let out = serialize_properties(&ps).unwrap();
    assert_eq!(out[0].0, "b");
    assert_eq!(out[1].0, "a");
}
