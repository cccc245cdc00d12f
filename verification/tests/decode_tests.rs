use bitcoin_data_mcp::blob::{ParamBlob, ParamValue};
use bitcoin_data_mcp::decode::{decode, decode_one, decode_value, DecodeError};
use bitcoin_data_mcp::failure::FailureKind;
use bitcoin_data_mcp::schema::{generate, FieldSpec, FieldType, SchemaDoc, TypedValue};
use serde_json::{Number, Value};

fn shape() -> SchemaDoc {
    generate(&vec![
        FieldSpec {
            name: "txid".to_string(),
            ty: FieldType::Text,
            description: "The id.".to_string(),
            default: None,
            allowed: None,
        },
        FieldSpec {
            name: "network".to_string(),
            ty: FieldType::Text,
            description: "The network.".to_string(),
            default: Some(TypedValue::Text("mainnet".to_string())),
            allowed: Some(vec!["mainnet".to_string(), "testnet".to_string()]),
        },
        FieldSpec {
            name: "depth".to_string(),
            ty: FieldType::Integer,
            description: "The depth.".to_string(),
            default: Some(TypedValue::Integer(6)),
            allowed: None,
        },
        FieldSpec {
            name: "raw".to_string(),
            ty: FieldType::Boolean,
            description: "Raw or not.".to_string(),
            default: Some(TypedValue::Boolean(false)),
            allowed: None,
        },
    ])
}

fn blob(entries: Vec<(&str, Value)>) -> ParamBlob {
    let mut m = serde_json::Map::new();
    for (k, v) in entries {
        m.insert(k.to_string(), v);
    }
    m
}

fn text(s: &str) -> Value {
    Value::String(s.to_string())
}

fn whole(n: i64) -> Value {
    Value::Number(Number::from(n))
}

#[test]
fn omitted_optional_fields_take_their_defaults() {
    let values = decode(&shape(), &blob(vec![("txid", text("abc"))])).unwrap();
    assert_eq!(values.len(), 4);
    assert!(matches!(&values[0], TypedValue::Text(s) if s == "abc"));
    assert!(matches!(&values[1], TypedValue::Text(s) if s == "mainnet"));
    assert!(matches!(&values[2], TypedValue::Integer(6)));
    assert!(matches!(&values[3], TypedValue::Boolean(false)));
}

#[test]
fn supplied_fields_are_taken_as_they_are() {
    let values = decode(
        &shape(),
        &blob(vec![
            ("raw", Value::Bool(true)),
            ("depth", whole(-3)),
            ("network", text("testnet")),
            ("txid", text("")),
        ]),
    )
    .unwrap();
    assert!(matches!(&values[0], TypedValue::Text(s) if s.is_empty()));
    assert!(matches!(&values[1], TypedValue::Text(s) if s == "testnet"));
    assert!(matches!(&values[2], TypedValue::Integer(-3)));
    assert!(matches!(&values[3], TypedValue::Boolean(true)));
}

#[test]
fn a_missing_required_field_is_named() {
    let e = decode(&shape(), &blob(vec![("network", text("testnet"))])).unwrap_err();
    assert!(matches!(&e, DecodeError::Missing { field } if field == "txid"));
    assert_eq!(e.detail(), "missing field `txid`");
    let f = e.into_failure();
    assert_eq!(f.kind, FailureKind::InvalidParameters);
    assert_eq!(f.message, "Invalid parameters: missing field `txid`");
    let e = decode(&shape(), &serde_json::Map::new()).unwrap_err();
    assert!(matches!(&e, DecodeError::Missing { field } if field == "txid"));
}

#[test]
fn a_value_of_the_wrong_type_is_rejected() {
    let cases: Vec<(&str, Value, FieldType, &str)> = vec![
        ("txid", whole(5), FieldType::Text, "string"),
        ("txid", Value::Null, FieldType::Text, "string"),
        ("txid", Value::Bool(true), FieldType::Text, "string"),
        ("txid", Value::Array(vec![text("a")]), FieldType::Text, "string"),
        ("txid", Value::Object(serde_json::Map::new()), FieldType::Text, "string"),
        ("depth", text("6"), FieldType::Integer, "integer"),
        ("depth", Value::Bool(false), FieldType::Integer, "integer"),
        ("depth", Value::Number(Number::from(u64::MAX)), FieldType::Integer, "integer"),
        ("depth", Value::Number(Number::from_f64(1.5).unwrap()), FieldType::Integer, "integer"),
        ("raw", whole(1), FieldType::Boolean, "boolean"),
        ("raw", text("true"), FieldType::Boolean, "boolean"),
        ("raw", Value::Null, FieldType::Boolean, "boolean"),
    ];
    for (key, value, expected, label) in cases {
        let mut entries = vec![("txid", text("abc"))];
        entries.push((key, value));
        let e = decode(&shape(), &blob(entries)).unwrap_err();
        assert!(
            matches!(&e, DecodeError::WrongType { field, expected: t } if field == key && *t == expected)
        );
        let f = e.into_failure();
        assert_eq!(f.kind, FailureKind::InvalidParameters);
        assert_eq!(
            f.message,
            format!("Invalid parameters: invalid type for field `{}`, expected {}", key, label)
        );
    }
}

#[test]
fn a_tag_outside_the_set_is_rejected() {
    let e = decode(&shape(), &blob(vec![("txid", text("abc")), ("network", text("signet"))]))
        .unwrap_err();
    assert!(
        matches!(&e, DecodeError::NotAllowed { field, value } if field == "network" && value == "signet")
    );
    assert_eq!(
        e.into_failure().message,
        "Invalid parameters: unknown variant `signet` for field `network`"
    );
}

#[test]
fn the_first_failing_field_decides() {
    let e = decode(&shape(), &blob(vec![("network", text("nope")), ("depth", text("x"))]))
        .unwrap_err();
    assert!(matches!(&e, DecodeError::Missing { field } if field == "txid"));
    let e = decode(
        &shape(),
        &blob(vec![("txid", text("a")), ("network", text("nope")), ("depth", text("x"))]),
    )
    .unwrap_err();
    assert!(matches!(&e, DecodeError::NotAllowed { field, .. } if field == "network"));
    let e = decode(
        &shape(),
        &blob(vec![("txid", text("a")), ("raw", whole(0)), ("depth", text("x"))]),
    )
    .unwrap_err();
    assert!(matches!(&e, DecodeError::WrongType { field, .. } if field == "depth"));
}

#[test]
fn unknown_fields_are_ignored() {
    let plain = decode(&shape(), &blob(vec![("txid", text("abc"))])).unwrap();
    let wider = decode(
        &shape(),
        &blob(vec![
            ("txid", text("abc")),
            ("extra", whole(1)),
            ("Network", text("signet")),
            ("", Value::Null),
        ]),
    )
    .unwrap();
    assert_eq!(plain.len(), wider.len());
    assert!(matches!(&wider[0], TypedValue::Text(s) if s == "abc"));
    assert!(matches!(&wider[1], TypedValue::Text(s) if s == "mainnet"));
    assert!(matches!(&wider[2], TypedValue::Integer(6)));
    assert!(matches!(&wider[3], TypedValue::Boolean(false)));
}

#[test]
fn an_empty_document_decodes_anything_to_nothing() {
    let doc = generate(&Vec::new());
    assert!(decode(&doc, &serde_json::Map::new()).unwrap().is_empty());
    assert!(decode(&doc, &blob(vec![("a", whole(1))])).unwrap().is_empty());
}

#[test]
fn one_field_against_an_object() {
    let doc = shape();
    let b = blob(vec![("depth", whole(9)), ("txid", text("t"))]);
    assert!(matches!(decode_one(&doc.fields[0], &b), Ok(TypedValue::Text(s)) if s == "t"));
    assert!(matches!(decode_one(&doc.fields[1], &b), Ok(TypedValue::Text(s)) if s == "mainnet"));
    assert!(matches!(decode_one(&doc.fields[2], &b), Ok(TypedValue::Integer(9))));
    assert!(matches!(decode_one(&doc.fields[3], &b), Ok(TypedValue::Boolean(false))));
    let empty = serde_json::Map::new();
    assert!(
        matches!(decode_one(&doc.fields[0], &empty), Err(DecodeError::Missing { field }) if field == "txid")
    );
}

#[test]
fn one_value_against_a_field() {
    let doc = shape();
    assert!(matches!(
        decode_value(&doc.fields[0], ParamValue::Text("x".to_string())),
        Ok(TypedValue::Text(s)) if s == "x"
    ));
    assert!(matches!(
        decode_value(&doc.fields[2], ParamValue::Number(Some(i64::MIN))),
        Ok(TypedValue::Integer(i64::MIN))
    ));
    assert!(matches!(
        decode_value(&doc.fields[2], ParamValue::Number(None)),
        Err(DecodeError::WrongType { expected: FieldType::Integer, .. })
    ));
    assert!(matches!(
        decode_value(&doc.fields[3], ParamValue::Bool(true)),
        Ok(TypedValue::Boolean(true))
    ));
    assert!(matches!(
        decode_value(&doc.fields[0], ParamValue::Array),
        Err(DecodeError::WrongType { expected: FieldType::Text, .. })
    ));
    assert!(matches!(
        decode_value(&doc.fields[0], ParamValue::Object),
        Err(DecodeError::WrongType { expected: FieldType::Text, .. })
    ));
    assert!(matches!(
        decode_value(&doc.fields[1], ParamValue::Null),
        Err(DecodeError::WrongType { expected: FieldType::Text, .. })
    ));
    assert!(matches!(
        decode_value(&doc.fields[1], ParamValue::Text("Mainnet".to_string())),
        Err(DecodeError::NotAllowed { .. })
    ));
}

#[test]
fn integers_at_the_limits() {
    let doc = shape();
    let b = blob(vec![("txid", text("t")), ("depth", whole(i64::MAX))]);
    let values = decode(&doc, &b).unwrap();
    assert!(matches!(&values[2], TypedValue::Integer(i64::MAX)));
    let b = blob(vec![("txid", text("t")), ("depth", whole(i64::MIN))]);
    let values = decode(&doc, &b).unwrap();
    assert!(matches!(&values[2], TypedValue::Integer(i64::MIN)));
}
