//! JSON schema checks for tool inputs and outputs: declared types, enums,
//! required and allowed object properties, array items, and numeric and
//! length bounds.
use vstd::prelude::*;
use crate::text::str_eq;
use crate::error::AgentOsError;
use crate::json::{JsonValue, JsonNumber, member, text_of, json_equal, json_equal_exec, number_order, compare_numbers,
    member_pos, find_member, lemma_member_decreases};

verus! {

pub open spec fn msg_type_mismatch() -> &'static str { "value does not have the expected type" }
pub open spec fn msg_unsupported_type() -> &'static str { "schema uses an unsupported type" }
pub open spec fn msg_unsupported_declaration() -> &'static str { "schema uses an unsupported type declaration" }
pub open spec fn msg_non_string_type() -> &'static str { "schema type array contains a non-string entry" }
pub open spec fn msg_no_type_match() -> &'static str { "value did not match any allowed type" }
pub open spec fn msg_enum() -> &'static str { "value does not match any enum value" }
pub open spec fn msg_expected_object() -> &'static str { "value is not an object" }
pub open spec fn msg_required_non_string() -> &'static str { "schema required list contains a non-string field" }
pub open spec fn msg_missing_required() -> &'static str { "object is missing a required field" }
pub open spec fn msg_unsupported_field() -> &'static str { "object contains an unsupported field" }
pub open spec fn msg_expected_array() -> &'static str { "value is not an array" }
pub open spec fn msg_below_minimum() -> &'static str { "value is below the minimum" }
pub open spec fn msg_above_maximum() -> &'static str { "value is above the maximum" }
pub open spec fn msg_too_short() -> &'static str { "value length is below the minimum" }
pub open spec fn msg_too_long() -> &'static str { "value length is above the maximum" }

/// Whether a number is an integer that fits `i64` or `u64`.
pub open spec fn is_integer(n: JsonNumber) -> bool {
    n.scale == 0 && i64::MIN <= n.mantissa <= u64::MAX
}

/// Why `value` is not of the named type, or `None` when it is.
pub open spec fn type_error(expected: Seq<char>, value: JsonValue) -> Option<&'static str> {
    let ok = if expected == "object"@ {
        Some(value is Object)
    } else if expected == "array"@ {
        Some(value is Array)
    } else if expected == "string"@ {
        Some(value is String)
    } else if expected == "number"@ {
        Some(value is Number)
    } else if expected == "integer"@ {
        Some(value matches JsonValue::Number(n) && is_integer(n))
    } else if expected == "boolean"@ {
        Some(value is Bool)
    } else if expected == "null"@ {
        Some(value is Null)
    } else {
        None
    };
    match ok {
        None => Some(msg_unsupported_type()),
        Some(true) => None,
        Some(false) => Some(msg_type_mismatch()),
    }
}

/// The first entry of a type list that `value` has, tried in order.
pub open spec fn types_error(types: Seq<JsonValue>, value: JsonValue) -> Option<&'static str>
    decreases types.len(),
{
    if types.len() == 0 {
        Some(msg_no_type_match())
    } else {
        match types[0] {
            JsonValue::String(t) => if type_error(t@, value) is None {
                None
            } else {
                types_error(types.drop_first(), value)
            },
            _ => Some(msg_non_string_type()),
        }
    }
}

/// Why `value` fails a `type` declaration: a type name or a list of them.
pub open spec fn type_schema_error(expected: JsonValue, value: JsonValue) -> Option<&'static str> {
    match expected {
        JsonValue::String(t) => type_error(t@, value),
        JsonValue::Array(ts) => types_error(ts@, value),
        _ => Some(msg_unsupported_declaration()),
    }
}

/// Some item equals `value`.
pub open spec fn any_equal(items: Seq<JsonValue>, value: JsonValue) -> bool {
    exists|i: int| 0 <= i < items.len() && json_equal(items[i], value)
}

/// Why `value` is not one of the schema's `enum` values.
pub open spec fn enum_error(schema: JsonValue, value: JsonValue) -> Option<&'static str> {
    match member(schema, "enum"@) {
        Some(JsonValue::Array(values)) => if any_equal(values@, value) {
            None
        } else {
            Some(msg_enum())
        },
        _ => None,
    }
}

/// A number, when `v` is one.
pub open spec fn number_of(v: Option<JsonValue>) -> Option<JsonNumber> {
    match v {
        Some(JsonValue::Number(n)) => Some(n),
        _ => None,
    }
}

/// A non-negative integer up to `u64::MAX`, when `v` is one.
pub open spec fn count_of(v: Option<JsonValue>) -> Option<int> {
    match v {
        Some(JsonValue::Number(n)) => if n.scale == 0 && 0 <= n.mantissa <= u64::MAX {
            Some(n.mantissa as int)
        } else {
            None
        },
        _ => None,
    }
}

/// Why a number breaks the schema's `minimum` or `maximum`.
pub open spec fn numeric_error(schema: JsonValue, value: JsonValue) -> Option<&'static str> {
    match value {
        JsonValue::Number(n) => if number_of(member(schema, "minimum"@)) matches Some(m) && number_order(n, m) < 0 {
            Some(msg_below_minimum())
        } else if number_of(member(schema, "maximum"@)) matches Some(m) && number_order(n, m) > 0 {
            Some(msg_above_maximum())
        } else {
            None
        },
        _ => None,
    }
}

/// The length of a string (in characters) or of an array.
pub open spec fn length_of(value: JsonValue) -> Option<int> {
    match value {
        JsonValue::String(s) => Some(s@.len() as int),
        JsonValue::Array(xs) => Some(xs@.len() as int),
        _ => None,
    }
}

/// The member `first`, or else the member `second`.
pub open spec fn either_member(schema: JsonValue, first: Seq<char>, second: Seq<char>) -> Option<JsonValue> {
    if member(schema, first) is Some {
        member(schema, first)
    } else {
        member(schema, second)
    }
}

/// Why a string or array breaks the schema's length bounds
/// (`minLength`/`minItems`, `maxLength`/`maxItems`).
pub open spec fn length_error(schema: JsonValue, value: JsonValue) -> Option<&'static str> {
    match length_of(value) {
        None => None,
        Some(len) => if count_of(either_member(schema, "minLength"@, "minItems"@)) matches Some(m) && len < m {
            Some(msg_too_short())
        } else if count_of(either_member(schema, "maxLength"@, "maxItems"@)) matches Some(m) && len > m {
            Some(msg_too_long())
        } else {
            None
        },
    }
}

/// Why a value fails the bounds of a schema whose type is a list.
pub open spec fn union_error(schema: JsonValue, value: JsonValue) -> Option<&'static str> {
    if value is Number && numeric_error(schema, value) is Some {
        numeric_error(schema, value)
    } else if value is String || value is Array {
        length_error(schema, value)
    } else {
        None
    }
}

/// The first required field, in order, that is not a string or is missing.
pub open spec fn required_error(fields: Seq<JsonValue>, object: Seq<(String, JsonValue)>) -> Option<&'static str>
    decreases fields.len(),
{
    if fields.len() == 0 {
        None
    } else {
        match fields[0] {
            JsonValue::String(f) => if member_pos(object, f@) is None {
                Some(msg_missing_required())
            } else {
                required_error(fields.drop_first(), object)
            },
            _ => Some(msg_required_non_string()),
        }
    }
}

/// The first field of `object` that `properties` does not declare.
pub open spec fn extra_field_error(object: Seq<(String, JsonValue)>, properties: Seq<(String, JsonValue)>) -> Option<&'static str> {
    if exists|i: int| 0 <= i < object.len() && member_pos(properties, object[i].0@) is None {
        Some(msg_unsupported_field())
    } else {
        None
    }
}

/// Why a value fails a schema, checked in order: its declared type, its
/// enum, then the checks of its type: object properties, array items and
/// length, string length, number bounds, or for a list of types the bounds
/// that apply to the value.
pub open spec fn schema_error(schema: JsonValue, value: JsonValue) -> Option<&'static str>
    decreases schema, 0int,
{
    let ty = member(schema, "type"@);
    if ty is Some && type_schema_error(ty.unwrap(), value) is Some {
        type_schema_error(ty.unwrap(), value)
    } else if enum_error(schema, value) is Some {
        enum_error(schema, value)
    } else if text_of(ty) == Some("object"@) {
        match value {
            JsonValue::Object(obj) => {
                let required = match member(schema, "required"@) {
                    Some(JsonValue::Array(fields)) => required_error(fields@, obj@),
                    _ => None,
                };
                if required is Some {
                    required
                } else {
                    match member(schema, "properties"@) {
                        Some(JsonValue::Object(props)) => {
                            proof {
                                lemma_member_decreases(schema, "properties"@);
                                assert(decreases_to!(member(schema, "properties"@).unwrap() => props));
                                assert(decreases_to!(props => props@));
                            }
                            let inner = properties_error(props@, obj@);
                            if inner is Some {
                                inner
                            } else if member(schema, "additionalProperties"@) == Some(JsonValue::Bool(false)) {
                                extra_field_error(obj@, props@)
                            } else {
                                None
                            }
                        },
                        _ => None,
                    }
                }
            },
            _ => Some(msg_expected_object()),
        }
    } else if text_of(ty) == Some("array"@) {
        match member(schema, "items"@) {
            Some(item_schema) => match value {
                JsonValue::Array(xs) => {
                    proof {
                        lemma_member_decreases(schema, "items"@);
                    }
                    let inner = items_error(item_schema, xs@);
                    if inner is Some {
                        inner
                    } else {
                        length_error(schema, value)
                    }
                },
                _ => Some(msg_expected_array()),
            },
            None => length_error(schema, value),
        }
    } else if text_of(ty) == Some("string"@) {
        length_error(schema, value)
    } else if text_of(ty) == Some("number"@) || text_of(ty) == Some("integer"@) {
        numeric_error(schema, value)
    } else if ty matches Some(JsonValue::Array(_)) {
        union_error(schema, value)
    } else {
        None
    }
}

/// The first declared property, in order, whose value fails its schema.
pub open spec fn properties_error(props: Seq<(String, JsonValue)>, object: Seq<(String, JsonValue)>) -> Option<&'static str>
    decreases props, 0int,
{
    if props.len() == 0 {
        None
    } else {
        let here = match member_pos(object, props[0].0@) {
            Some(j) => {
                proof {
                    assert(decreases_to!(props => props[0]));
                    assert(decreases_to!(props[0] => props[0].1));
                }
                schema_error(props[0].1, object[j].1)
            },
            None => None,
        };
        if here is Some {
            here
        } else {
            properties_error(props.drop_first(), object)
        }
    }
}

/// The first item, in order, that fails the item schema.
pub open spec fn items_error(item_schema: JsonValue, items: Seq<JsonValue>) -> Option<&'static str>
    decreases item_schema, items.len() as int,
{
    if items.len() == 0 {
        None
    } else {
        let here = schema_error(item_schema, items[0]);
        if here is Some {
            here
        } else {
            items_error(item_schema, items.drop_first())
        }
    }
}

// ---------------------------------------------------------------------------
// Checking

fn type_check(expected: &str, value: &JsonValue) -> (r: Option<&'static str>)
    ensures
        r == type_error(expected@, *value),
{
    let ok = if str_eq(expected, "object") {
        Some(matches!(value, JsonValue::Object(_)))
    } else if str_eq(expected, "array") {
        Some(matches!(value, JsonValue::Array(_)))
    } else if str_eq(expected, "string") {
        Some(matches!(value, JsonValue::String(_)))
    } else if str_eq(expected, "number") {
        Some(matches!(value, JsonValue::Number(_)))
    } else if str_eq(expected, "integer") {
        Some(
            match value {
                JsonValue::Number(n) => n.scale == 0 && -9_223_372_036_854_775_808i128 <= n.mantissa
                    && n.mantissa <= 18_446_744_073_709_551_615i128,
                _ => false,
            },
        )
    } else if str_eq(expected, "boolean") {
        Some(matches!(value, JsonValue::Bool(_)))
    } else if str_eq(expected, "null") {
        Some(matches!(value, JsonValue::Null))
    } else {
        None
    };
    match ok {
        None => Some("schema uses an unsupported type"),
        Some(true) => None,
        Some(false) => Some("value does not have the expected type"),
    }
}

fn type_schema_check(expected: &JsonValue, value: &JsonValue) -> (r: Option<&'static str>)
    ensures
        r == type_schema_error(*expected, *value),
{
    match expected {
        JsonValue::String(t) => type_check(t.as_str(), value),
        JsonValue::Array(types) => {
            let mut i: usize = 0;
            assert(types@.subrange(0, types@.len() as int) =~= types@);
            while i < types.len()
                invariant
                    i <= types@.len(),
                    type_schema_error(*expected, *value) == types_error(types@, *value),
                    types_error(types@, *value) == types_error(types@.subrange(i as int, types@.len() as int), *value),
                decreases types@.len() - i,
            {
                proof {
                    let rest = types@.subrange(i as int, types@.len() as int);
                    assert(rest[0] == types@[i as int]);
                    assert(rest.drop_first() =~= types@.subrange(i + 1, types@.len() as int));
                }
                match &types[i] {
                    JsonValue::String(t) => {
                        if type_check(t.as_str(), value).is_none() {
                            return None;
                        }
                    },
                    _ => return Some("schema type array contains a non-string entry"),
                }
                i = i + 1;
            }
            Some("value did not match any allowed type")
        },
        _ => Some("schema uses an unsupported type declaration"),
    }
}

fn enum_check(schema: &JsonValue, value: &JsonValue) -> (r: Option<&'static str>)
    ensures
        r == enum_error(*schema, *value),
{
    match schema.get("enum") {
        Some(JsonValue::Array(values)) => {
            let mut i: usize = 0;
            while i < values.len()
                invariant
                    i <= values@.len(),
                    member(*schema, "enum"@) == Some(JsonValue::Array(*values)),
                    forall|j: int| 0 <= j < i ==> !json_equal(#[trigger] values@[j], *value),
                decreases values@.len() - i,
            {
                if json_equal_exec(&values[i], value) {
                    return None;
                }
                i = i + 1;
            }
            Some("value does not match any enum value")
        },
        _ => None,
    }
}

fn number_member(schema: &JsonValue, key: &str) -> (r: Option<JsonNumber>)
    ensures
        r == number_of(member(*schema, key@)),
{
    match schema.get(key) {
        Some(JsonValue::Number(n)) => Some(*n),
        _ => None,
    }
}

fn numeric_check(schema: &JsonValue, value: &JsonValue) -> (r: Option<&'static str>)
    ensures
        r == numeric_error(*schema, *value),
{
    match value {
        JsonValue::Number(n) => {
            if let Some(m) = number_member(schema, "minimum") {
                if compare_numbers(*n, m) < 0 {
                    return Some("value is below the minimum");
                }
            }
            if let Some(m) = number_member(schema, "maximum") {
                if compare_numbers(*n, m) > 0 {
                    return Some("value is above the maximum");
                }
            }
            None
        },
        _ => None,
    }
}

fn count_member(schema: &JsonValue, first: &str, second: &str) -> (r: Option<u64>)
    ensures
        match count_of(either_member(*schema, first@, second@)) {
            Some(c) => r matches Some(x) && x as int == c,
            None => r is None,
        },
{
    let v = match schema.get(first) {
        Some(v) => Some(v),
        None => schema.get(second),
    };
    match v {
        Some(JsonValue::Number(n)) => {
            if n.scale == 0 && 0 <= n.mantissa && n.mantissa <= 18_446_744_073_709_551_615i128 {
                Some(n.mantissa as u64)
            } else {
                None
            }
        },
        _ => None,
    }
}

fn length_check(schema: &JsonValue, value: &JsonValue) -> (r: Option<&'static str>)
    ensures
        r == length_error(*schema, *value),
{
    let len: usize = match value {
        JsonValue::String(t) => t.as_str().unicode_len(),
        JsonValue::Array(xs) => xs.len(),
        _ => return None,
    };
    if let Some(m) = count_member(schema, "minLength", "minItems") {
        if (len as u64) < m {
            return Some("value length is below the minimum");
        }
    }
    if let Some(m) = count_member(schema, "maxLength", "maxItems") {
        if (len as u64) > m {
            return Some("value length is above the maximum");
        }
    }
    None
}

fn required_check(fields: &Vec<JsonValue>, object: &Vec<(String, JsonValue)>) -> (r: Option<&'static str>)
    ensures
        r == required_error(fields@, object@),
{
    let mut i: usize = 0;
    assert(fields@.subrange(0, fields@.len() as int) =~= fields@);
    while i < fields.len()
        invariant
            i <= fields@.len(),
            required_error(fields@, object@) == required_error(fields@.subrange(i as int, fields@.len() as int), object@),
        decreases fields@.len() - i,
    {
        proof {
            let rest = fields@.subrange(i as int, fields@.len() as int);
            assert(rest[0] == fields@[i as int]);
            assert(rest.drop_first() =~= fields@.subrange(i + 1, fields@.len() as int));
        }
        match &fields[i] {
            JsonValue::String(f) => {
                if find_member(object, f.as_str()).is_none() {
                    return Some("object is missing a required field");
                }
            },
            _ => return Some("schema required list contains a non-string field"),
        }
        i = i + 1;
    }
    None
}

fn extra_field_check(object: &Vec<(String, JsonValue)>, properties: &Vec<(String, JsonValue)>) -> (r: Option<&'static str>)
    ensures
        r == extra_field_error(object@, properties@),
{
    let mut i: usize = 0;
    while i < object.len()
        invariant
            i <= object@.len(),
            forall|j: int| 0 <= j < i ==> member_pos(properties@, (#[trigger] object@[j]).0@) is Some,
        decreases object@.len() - i,
    {
        if find_member(properties, object[i].0.as_str()).is_none() {
            return Some("object contains an unsupported field");
        }
        i = i + 1;
    }
    None
}

fn type_named(schema: &JsonValue, name: &str) -> (b: bool)
    ensures
        b == (text_of(member(*schema, "type"@)) == Some(name@)),
{
    match schema.get_str("type") {
        Some(t) => str_eq(t, name),
        None => false,
    }
}

/// Why `value` fails `schema`, or `None` when it conforms.
pub fn schema_check(schema: &JsonValue, value: &JsonValue) -> (r: Option<&'static str>)
    ensures
        r == schema_error(*schema, *value),
    decreases schema,
{
    let ty = schema.get("type");
    if let Some(t) = ty {
        let e = type_schema_check(t, value);
        if e.is_some() {
            return e;
        }
    }
    let e = enum_check(schema, value);
    if e.is_some() {
        return e;
    }
    if type_named(schema, "object") {
        match value {
            JsonValue::Object(obj) => {
                if let Some(JsonValue::Array(fields)) = schema.get("required") {
                    let e = required_check(fields, obj);
                    if e.is_some() {
                        return e;
                    }
                }
                match schema.get("properties") {
                    Some(JsonValue::Object(props)) => {
                        let mut i: usize = 0;
                        assert(props@.subrange(0, props@.len() as int) =~= props@);
                        proof {
                            lemma_member_decreases(*schema, "properties"@);
                        }
                        while i < props.len()
                            invariant
                                i <= props@.len(),
                                member(*schema, "properties"@) == Some(JsonValue::Object(*props)),
                                decreases_to!(*schema => JsonValue::Object(*props)),
                                properties_error(props@, obj@) == properties_error(
                                    props@.subrange(i as int, props@.len() as int),
                                    obj@,
                                ),
                                schema_error(*schema, *value) == (match properties_error(props@, obj@) {
                                    Some(e) => Some(e),
                                    None => if member(*schema, "additionalProperties"@) == Some(JsonValue::Bool(false)) {
                                        extra_field_error(obj@, props@)
                                    } else {
                                        None
                                    },
                                }),
                            decreases props@.len() - i,
                        {
                            proof {
                                let rest = props@.subrange(i as int, props@.len() as int);
                                assert(rest[0] == props@[i as int]);
                                assert(rest.drop_first() =~= props@.subrange(i + 1, props@.len() as int));
                                broadcast use vstd::std_specs::vec::axiom_vec_index_decreases;
                                assert(decreases_to!(JsonValue::Object(*props) => *props));
                                assert(decreases_to!(*props => props[i as int]));
                                assert(decreases_to!(props[i as int] => props[i as int].1));
                            }
                            if let Some(j) = find_member(obj, props[i].0.as_str()) {
                                let e = schema_check(&props[i].1, &obj[j].1);
                                if e.is_some() {
                                    return e;
                                }
                            }
                            i = i + 1;
                        }
                        match schema.get("additionalProperties") {
                            Some(JsonValue::Bool(false)) => extra_field_check(obj, props),
                            _ => None,
                        }
                    },
                    _ => None,
                }
            },
            _ => Some("value is not an object"),
        }
    } else if type_named(schema, "array") {
        match schema.get("items") {
            Some(item_schema) => match value {
                JsonValue::Array(xs) => {
                    proof {
                        lemma_member_decreases(*schema, "items"@);
                    }
                    let mut i: usize = 0;
                    assert(xs@.subrange(0, xs@.len() as int) =~= xs@);
                    while i < xs.len()
                        invariant
                            i <= xs@.len(),
                            decreases_to!(*schema => *item_schema),
                            items_error(*item_schema, xs@) == items_error(
                                *item_schema,
                                xs@.subrange(i as int, xs@.len() as int),
                            ),
                            schema_error(*schema, *value) == (match items_error(*item_schema, xs@) {
                                Some(e) => Some(e),
                                None => length_error(*schema, *value),
                            }),
                        decreases xs@.len() - i,
                    {
                        proof {
                            let rest = xs@.subrange(i as int, xs@.len() as int);
                            assert(rest[0] == xs@[i as int]);
                            assert(rest.drop_first() =~= xs@.subrange(i + 1, xs@.len() as int));
                        }
                        let e = schema_check(item_schema, &xs[i]);
                        if e.is_some() {
                            return e;
                        }
                        i = i + 1;
                    }
                    length_check(schema, value)
                },
                _ => Some("value is not an array"),
            },
            None => length_check(schema, value),
        }
    } else if type_named(schema, "string") {
        length_check(schema, value)
    } else if type_named(schema, "number") || type_named(schema, "integer") {
        numeric_check(schema, value)
    } else if let Some(JsonValue::Array(_)) = ty {
        let n = numeric_check(schema, value);
        if matches!(value, JsonValue::Number(_)) && n.is_some() {
            n
        } else if matches!(value, JsonValue::String(_)) || matches!(value, JsonValue::Array(_)) {
            length_check(schema, value)
        } else {
            None
        }
    } else {
        None
    }
}

/// Checks `value` against `schema`; a failure is a `Validation` error
/// saying what failed.
pub fn validate_json_schema(schema: &JsonValue, value: &JsonValue) -> (r: Result<(), AgentOsError>)
    ensures
        match schema_error(*schema, *value) {
            Some(m) => r == Err::<(), AgentOsError>(AgentOsError::Validation(m)),
            None => r is Ok,
        },
{
    match schema_check(schema, value) {
        Some(m) => Err(AgentOsError::Validation(m)),
        None => Ok(()),
    }
}

} // verus!
