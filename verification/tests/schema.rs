use code_core::decode::{parse_tool_input_schema, InvalidSchema};
use code_core::json::{json_str, json_strings, json_uint, JsonNumber, JsonValue};
use code_core::omap::OrderedMap;
use code_core::sanitize::{sanitize_json_schema, sanitized_schema};
use code_core::schema::{AdditionalProperties, JsonSchema};

fn obj(entries: Vec<(&str, JsonValue)>) -> JsonValue {
    let mut m = OrderedMap::new();
    for (k, v) in entries {
        m.insert(k.to_string(), v);
    }
    JsonValue::Object(m)
}

fn arr(items: Vec<JsonValue>) -> JsonValue {
    JsonValue::Array(items)
}

fn typed(name: &str) -> JsonValue {
    obj(vec![("type", json_str(name))])
}

fn object_schema(properties: Vec<(&str, JsonSchema)>, required: Option<Vec<&str>>) -> JsonSchema {
    let mut m = OrderedMap::new();
    for (k, v) in properties {
        m.insert(k.to_string(), v);
    }
    JsonSchema::Object {
        properties: m,
        required: required.map(|r| r.iter().map(|s| s.to_string()).collect()),
        additional_properties: None,
    }
}

fn text(description: Option<&str>, allowed: Option<Vec<&str>>) -> JsonSchema {
    JsonSchema::String {
        description: description.map(str::to_string),
        allowed_values: allowed.map(|v| v.iter().map(|s| s.to_string()).collect()),
    }
}

#[test]
fn schema_in_json() {
    let schema = object_schema(
        vec![
            ("b", text(Some("pick"), Some(vec!["x", "y"]))),
            ("a", JsonSchema::Boolean { description: None }),
            (
                "c",
                JsonSchema::Array {
                    items: Box::new(JsonSchema::Number { description: Some("n".to_string()) }),
                    description: None,
                },
            ),
        ],
        None,
    );
    assert_eq!(
        schema.to_json(),
        obj(vec![
            ("type", json_str("object")),
            (
                "properties",
                obj(vec![
                    ("a", typed("boolean")),
                    (
                        "b",
                        obj(vec![
                            ("type", json_str("string")),
                            ("description", json_str("pick")),
                            ("enum", arr(vec![json_str("x"), json_str("y")])),
                        ])
                    ),
                    (
                        "c",
                        obj(vec![
                            ("type", json_str("array")),
                            (
                                "items",
                                obj(vec![
                                    ("type", json_str("number")),
                                    ("description", json_str("n"))
                                ])
                            ),
                        ])
                    ),
                ])
            ),
            // Where nothing is said, everything is required, in order.
            ("required", json_strings(&vec!["a".to_string(), "b".to_string(), "c".to_string()])),
        ])
    );
}

#[test]
fn what_is_written_is_read_back() {
    let schema = JsonSchema::Object {
        properties: {
            let mut m = OrderedMap::new();
            m.insert("a".to_string(), text(None, None));
            m.insert("n".to_string(), object_schema(vec![], Some(vec![])));
            m
        },
        required: Some(vec!["a".to_string()]),
        additional_properties: Some(AdditionalProperties::Schema(Box::new(text(
            Some("more"),
            None,
        )))),
    };
    assert_eq!(JsonSchema::from_json(&schema.to_json()), Ok(schema));
}

#[test]
fn missing_type_is_guessed() {
    let guess = |v: JsonValue| sanitized_schema(&v);
    assert_eq!(guess(JsonValue::Bool(true)), typed("string"));
    assert_eq!(
        guess(obj(vec![("properties", obj(vec![]))])),
        obj(vec![("type", json_str("object")), ("properties", obj(vec![]))])
    );
    assert_eq!(
        guess(obj(vec![("items", typed("integer"))])),
        obj(vec![("type", json_str("array")), ("items", typed("integer"))])
    );
    assert_eq!(
        guess(obj(vec![("enum", arr(vec![json_str("a")]))])),
        obj(vec![("type", json_str("string")), ("enum", arr(vec![json_str("a")]))])
    );
    assert_eq!(
        guess(obj(vec![("minimum", json_uint(1))])),
        obj(vec![("type", json_str("number")), ("minimum", json_uint(1))])
    );
    assert_eq!(guess(obj(vec![])), typed("string"));
}

#[test]
fn repair_is_done_once() {
    let mut value = obj(vec![
        ("type", arr(vec![json_str("null"), json_str("array")])),
        ("anyOf", arr(vec![typed("integer"), obj(vec![])])),
    ]);
    sanitize_json_schema(&mut value);
    let once = sanitized_schema(&value);
    assert_eq!(once, value);
}

#[test]
fn broken_schemas_are_refused() {
    assert_eq!(JsonSchema::from_json(&JsonValue::Null), Err(InvalidSchema));
    assert_eq!(JsonSchema::from_json(&typed("nonsense")), Err(InvalidSchema));
    assert_eq!(JsonSchema::from_json(&typed("array")), Err(InvalidSchema));
    assert_eq!(JsonSchema::from_json(&typed("object")), Err(InvalidSchema));
    let bad = obj(vec![("type", json_str("string")), ("description", json_uint(3))]);
    assert_eq!(JsonSchema::from_json(&bad), Err(InvalidSchema));
    assert_eq!(
        parse_tool_input_schema(&obj(vec![
            ("type", json_str("object")),
            ("required", json_uint(1)),
        ])),
        Err(InvalidSchema)
    );
}

#[test]
fn integer_is_a_number() {
    assert_eq!(
        JsonSchema::from_json(&typed("integer")),
        Ok(JsonSchema::Number { description: None })
    );
    assert_eq!(
        parse_tool_input_schema(&typed("array")),
        Ok(JsonSchema::Array { items: Box::new(text(None, None)), description: None })
    );
}

#[test]
fn numbers_keep_their_kind() {
    let v = JsonValue::Number(JsonNumber::NegInt(-1));
    assert_eq!(v.clone(), v);
    let f = JsonValue::Number(JsonNumber::Float("1.5".to_string()));
    assert_ne!(f, v);
}
