use agent_os_kernel::error::AgentOsError;
use agent_os_kernel::json::{compare_numbers, json_equal_exec, JsonNumber, JsonValue};
use agent_os_kernel::schema::{schema_check, validate_json_schema};

fn integer(n: i128) -> JsonValue {
    JsonValue::Number(JsonNumber { mantissa: n, scale: 0 })
}

fn dec(mantissa: i128, scale: u32) -> JsonValue {
    JsonValue::Number(JsonNumber { mantissa, scale })
}

fn text(t: &str) -> JsonValue {
    JsonValue::String(t.to_string())
}

fn obj(members: Vec<(&str, JsonValue)>) -> JsonValue {
    JsonValue::Object(members.into_iter().map(|(k, v)| (k.to_string(), v)).collect())
}

#[test]
fn validates_numeric_bounds() {
    let schema = obj(vec![("type", text("integer")), ("minimum", integer(1)), ("maximum", integer(3))]);
    assert!(validate_json_schema(&schema, &integer(1)).is_ok());
    assert!(validate_json_schema(&schema, &integer(0)).is_err());
    assert!(validate_json_schema(&schema, &integer(4)).is_err());
}

#[test]
fn validates_string_and_array_lengths() {
    let string_schema = obj(vec![("type", text("string")), ("minLength", integer(2)), ("maxLength", integer(3))]);
    assert!(validate_json_schema(&string_schema, &text("ab")).is_ok());
    assert!(validate_json_schema(&string_schema, &text("a")).is_err());
    assert!(validate_json_schema(&string_schema, &text("abcd")).is_err());

    let array_schema = obj(vec![("type", text("array")), ("minItems", integer(1)), ("maxItems", integer(2))]);
    assert!(validate_json_schema(&array_schema, &JsonValue::Array(vec![integer(1)])).is_ok());
    assert!(validate_json_schema(&array_schema, &JsonValue::Array(vec![])).is_err());
    assert!(validate_json_schema(&array_schema, &JsonValue::Array(vec![integer(1), integer(2), integer(3)])).is_err());
}

#[test]
fn validates_union_type() {
    let schema = obj(vec![
        ("type", JsonValue::Array(vec![text("string"), text("null")])),
        ("maxLength", integer(3)),
    ]);
    assert!(validate_json_schema(&schema, &text("abc")).is_ok());
    assert!(validate_json_schema(&schema, &JsonValue::Null).is_ok());
    assert!(validate_json_schema(&schema, &integer(1)).is_err());
    assert!(validate_json_schema(&schema, &text("abcd")).is_err());
}

#[test]
fn decimals_are_not_integers_but_are_numbers() {
    let integer = obj(vec![("type", text("integer"))]);
    let number = obj(vec![("type", text("number")), ("maximum", dec(25, 1))]);
    assert_eq!(
        validate_json_schema(&integer, &dec(10, 1)),
        Err(AgentOsError::Validation("value does not have the expected type"))
    );
    assert!(validate_json_schema(&number, &dec(25, 1)).is_ok());
    assert!(validate_json_schema(&number, &dec(2, 0)).is_ok());
    assert_eq!(
        validate_json_schema(&number, &dec(2501, 3)),
        Err(AgentOsError::Validation("value is above the maximum"))
    );
}

#[test]
fn objects_check_required_properties_and_extra_fields() {
    let schema = obj(vec![
        ("type", text("object")),
        ("required", JsonValue::Array(vec![text("path")])),
        (
            "properties",
            obj(vec![
                ("limit", obj(vec![("type", text("integer")), ("minimum", integer(1))])),
                ("path", obj(vec![("type", text("string"))])),
            ]),
        ),
        ("additionalProperties", JsonValue::Bool(false)),
    ]);
    assert!(validate_json_schema(&schema, &obj(vec![("path", text("a.rs"))])).is_ok());
    assert!(validate_json_schema(&schema, &obj(vec![("path", text("a.rs")), ("limit", integer(5))])).is_ok());
    assert_eq!(schema_check(&schema, &obj(vec![])), Some("object is missing a required field"));
    assert_eq!(
        schema_check(&schema, &obj(vec![("path", text("a.rs")), ("limit", integer(0))])),
        Some("value is below the minimum")
    );
    assert_eq!(
        schema_check(&schema, &obj(vec![("path", text("a.rs")), ("mode", text("x"))])),
        Some("object contains an unsupported field")
    );
    assert_eq!(schema_check(&schema, &text("a.rs")), Some("value does not have the expected type"));
}

#[test]
fn arrays_check_every_item() {
    let schema = obj(vec![("type", text("array")), ("items", obj(vec![("type", text("string"))]))]);
    assert!(validate_json_schema(&schema, &JsonValue::Array(vec![text("a"), text("b")])).is_ok());
    assert_eq!(
        schema_check(&schema, &JsonValue::Array(vec![text("a"), integer(2)])),
        Some("value does not have the expected type")
    );
}

#[test]
fn enums_compare_values_as_json() {
    let schema = obj(vec![("enum", JsonValue::Array(vec![text("read"), text("write"), integer(1)]))]);
    assert!(validate_json_schema(&schema, &text("write")).is_ok());
    assert!(validate_json_schema(&schema, &integer(1)).is_ok());
    assert_eq!(schema_check(&schema, &dec(10, 1)), Some("value does not match any enum value"));
    assert_eq!(schema_check(&schema, &text("exec")), Some("value does not match any enum value"));
}

#[test]
fn unsupported_types_are_reported() {
    let schema = obj(vec![("type", text("date"))]);
    assert_eq!(schema_check(&schema, &text("x")), Some("schema uses an unsupported type"));
    let bad = obj(vec![("type", integer(1))]);
    assert_eq!(schema_check(&bad, &text("x")), Some("schema uses an unsupported type declaration"));
    let mixed = obj(vec![("type", JsonValue::Array(vec![integer(1), text("string")]))]);
    assert_eq!(schema_check(&mixed, &text("x")), Some("schema type array contains a non-string entry"));
}

#[test]
fn numbers_compare_as_exact_decimals() {
    let a = JsonNumber { mantissa: 15, scale: 1 };
    let b = JsonNumber { mantissa: 150, scale: 2 };
    let c = JsonNumber { mantissa: 2, scale: 0 };
    assert_eq!(compare_numbers(a, b), 0);
    assert_eq!(compare_numbers(a, c), -1);
    assert_eq!(compare_numbers(c, b), 1);
    let huge = JsonNumber { mantissa: i128::MAX, scale: 0 };
    let tiny_scale = JsonNumber { mantissa: 1, scale: 60 };
    assert_eq!(compare_numbers(tiny_scale, huge), -1);
    assert_eq!(compare_numbers(JsonNumber { mantissa: -3, scale: 0 }, JsonNumber { mantissa: -1, scale: 40 }), -1);
}

#[test]
fn objects_are_equal_regardless_of_member_order() {
    let a = obj(vec![("x", integer(1)), ("y", text("z"))]);
    let b = obj(vec![("y", text("z")), ("x", integer(1))]);
    let c = obj(vec![("y", text("z")), ("x", dec(10, 1))]);
    assert!(json_equal_exec(&a, &b));
    assert!(!json_equal_exec(&a, &c));
    assert!(json_equal_exec(&dec(15, 1), &dec(150, 2)));
}
