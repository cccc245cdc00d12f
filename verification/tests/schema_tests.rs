use bitcoin_data_mcp::backend::{Handler, Resource};
use bitcoin_data_mcp::endpoint::ServiceFamily;
use bitcoin_data_mcp::schema::{generate, FieldSpec, FieldType, SchemaDoc, TypedValue};

fn text_field(name: &str, description: &str) -> FieldSpec {
    FieldSpec {
        name: name.to_string(),
        ty: FieldType::Text,
        description: description.to_string(),
        default: None,
        allowed: None,
    }
}

fn sample_shape() -> Vec<FieldSpec> {
    vec![
        text_field("id", "An id."),
        FieldSpec {
            name: "limit".to_string(),
            ty: FieldType::Integer,
            description: "How many.".to_string(),
            default: Some(TypedValue::Integer(-25)),
            allowed: None,
        },
        FieldSpec {
            name: "verbose".to_string(),
            ty: FieldType::Boolean,
            description: "Say \"more\".".to_string(),
            default: Some(TypedValue::Boolean(false)),
            allowed: None,
        },
        FieldSpec {
            name: "mode".to_string(),
            ty: FieldType::Text,
            description: "Which mode.".to_string(),
            default: None,
            allowed: Some(vec!["fast".to_string(), "slow".to_string()]),
        },
    ]
}

#[test]
fn a_field_is_required_exactly_without_a_default() {
    let doc = generate(&sample_shape());
    assert_eq!(doc.fields.len(), 4);
    let names: Vec<&str> = doc.fields.iter().map(|f| f.name.as_str()).collect();
    assert_eq!(names, vec!["id", "limit", "verbose", "mode"]);
    let required: Vec<bool> = doc.fields.iter().map(|f| f.required).collect();
    assert_eq!(required, vec![true, false, false, true]);
    assert_eq!(doc.fields[0].ty, FieldType::Text);
    assert_eq!(doc.fields[1].ty, FieldType::Integer);
    assert_eq!(doc.fields[2].ty, FieldType::Boolean);
    assert_eq!(doc.fields[0].description, "An id.");
    assert!(matches!(doc.fields[1].default, Some(TypedValue::Integer(-25))));
    assert!(matches!(doc.fields[2].default, Some(TypedValue::Boolean(false))));
    assert!(doc.fields[0].default.is_none());
    assert_eq!(doc.fields[3].allowed, Some(vec!["fast".to_string(), "slow".to_string()]));
    assert!(doc.fields[0].allowed.is_none());
}

#[test]
fn the_text_of_a_schema_is_exact() {
    let doc = generate(&sample_shape());
    assert_eq!(
        doc.to_json(),
        "{\"type\":\"object\",\"properties\":{\
         \"id\":{\"type\":\"string\",\"description\":\"An id.\"},\
         \"limit\":{\"type\":\"integer\",\"description\":\"How many.\",\"default\":-25},\
         \"verbose\":{\"type\":\"boolean\",\"description\":\"Say \\\"more\\\".\",\"default\":false},\
         \"mode\":{\"type\":\"string\",\"description\":\"Which mode.\",\"enum\":[\"fast\",\"slow\"]}\
         },\"required\":[\"id\",\"mode\"]}"
    );
}

#[test]
fn the_schema_of_an_empty_shape_is_an_empty_object_schema() {
    let doc = generate(&Vec::new());
    assert_eq!(doc.fields.len(), 0);
    assert_eq!(doc.to_json(), "{\"type\":\"object\",\"properties\":{},\"required\":[]}");
}

#[test]
fn a_schema_without_required_fields_has_an_empty_required_list() {
    let shape = vec![FieldSpec {
        name: "network".to_string(),
        ty: FieldType::Text,
        description: "d".to_string(),
        default: Some(TypedValue::Text("mainnet".to_string())),
        allowed: Some(vec!["mainnet".to_string()]),
    }];
    assert_eq!(
        generate(&shape).to_json(),
        "{\"type\":\"object\",\"properties\":{\"network\":{\"type\":\"string\",\
         \"description\":\"d\",\"enum\":[\"mainnet\"],\"default\":\"mainnet\"}},\"required\":[]}"
    );
}

#[test]
fn the_transaction_schema_of_the_bitcoin_family() {
    let handler = Handler { family: ServiceFamily::Bitcoin, resource: Resource::Transaction };
    let doc = generate(&handler.shape());
    assert_eq!(
        doc.to_json(),
        "{\"type\":\"object\",\"properties\":{\
         \"txid\":{\"type\":\"string\",\"description\":\"The transaction ID (txid) hash to look up.\"},\
         \"network\":{\"type\":\"string\",\"description\":\"The network to query. Defaults to mainnet.\",\
         \"enum\":[\"mainnet\",\"testnet\",\"signet\"],\"default\":\"mainnet\"}\
         },\"required\":[\"txid\"]}"
    );
}

#[test]
fn the_block_schema_of_the_liquid_family() {
    let handler = Handler { family: ServiceFamily::Liquid, resource: Resource::Block };
    let doc = generate(&handler.shape());
    assert_eq!(
        doc.to_json(),
        "{\"type\":\"object\",\"properties\":{\
         \"hash\":{\"type\":\"string\",\"description\":\"The block hash to look up.\"},\
         \"network\":{\"type\":\"string\",\"description\":\"The network to query. Defaults to mainnet.\",\
         \"enum\":[\"mainnet\",\"testnet\"],\"default\":\"mainnet\"}\
         },\"required\":[\"hash\"]}"
    );
}

#[test]
fn repeated_generation_gives_the_same_bytes() {
    let first = generate(&sample_shape()).to_json();
    for _ in 0..5 {
        assert_eq!(generate(&sample_shape()).to_json().as_bytes(), first.as_bytes());
    }
    let doc = generate(&sample_shape());
    assert_eq!(doc.to_json(), doc.to_json());
    assert_eq!(doc.duplicate().to_json(), first);
}

#[test]
fn the_text_is_json_that_serde_json_reads() {
    let text = generate(&sample_shape()).to_json();
    let value: serde_json::Value = serde_json::from_str(&text).unwrap();
    let object = value.as_object().unwrap();
    assert_eq!(object.get("type").unwrap().as_str(), Some("object"));
    let properties = object.get("properties").unwrap().as_object().unwrap();
    assert_eq!(properties.len(), 4);
    let limit = properties.get("limit").unwrap().as_object().unwrap();
    assert_eq!(limit.get("type").unwrap().as_str(), Some("integer"));
    assert_eq!(limit.get("default").unwrap().as_i64(), Some(-25));
    let verbose = properties.get("verbose").unwrap().as_object().unwrap();
    assert_eq!(verbose.get("description").unwrap().as_str(), Some("Say \"more\"."));
    assert_eq!(verbose.get("default").unwrap().as_bool(), Some(false));
    let mode = properties.get("mode").unwrap().as_object().unwrap();
    let tags: Vec<&str> =
        mode.get("enum").unwrap().as_array().unwrap().iter().map(|t| t.as_str().unwrap()).collect();
    assert_eq!(tags, vec!["fast", "slow"]);
    let required: Vec<&str> = object
        .get("required")
        .unwrap()
        .as_array()
        .unwrap()
        .iter()
        .map(|t| t.as_str().unwrap())
        .collect();
    assert_eq!(required, vec!["id", "mode"]);
}

#[test]
fn awkward_descriptions_survive_a_round_trip() {
    let shape = vec![text_field("k\"e\\y", "line one\nline\ttwo \u{1} \u{e9}")];
    let text = generate(&shape).to_json();
    let value: serde_json::Value = serde_json::from_str(&text).unwrap();
    let field = value
        .get("properties")
        .unwrap()
        .as_object()
        .unwrap()
        .get("k\"e\\y")
        .unwrap();
    assert_eq!(
        field.get("description").unwrap().as_str(),
        Some("line one\nline\ttwo \u{1} \u{e9}")
    );
}

#[test]
fn type_labels() {
    assert_eq!(FieldType::Text.label(), "string");
    assert_eq!(FieldType::Integer.label(), "integer");
    assert_eq!(FieldType::Boolean.label(), "boolean");
}

#[test]
fn a_document_can_be_written_by_hand() {
    let doc = SchemaDoc { fields: Vec::new() };
    assert_eq!(doc.to_json(), "{\"type\":\"object\",\"properties\":{},\"required\":[]}");
}
