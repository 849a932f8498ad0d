//! The core tool catalog a fresh kernel registers: the filesystem and shell
//! tools, the control-plane tools and the skill tools, and the model
//! metadata (description, model-facing input schema, runtime-injected
//! fields and resource scopes) each core tool is shown with.
use vstd::prelude::*;
use crate::text::str_eq;
use crate::agents::text_list;
use crate::scope::texts;
use crate::json::{JsonValue, JsonNumber, JsonModel, json_model, json_text, json_int, json_bool, push_member, push_item,
    json_object, json_array};
use crate::permissions::ToolDriverClass;
use crate::state::EvidenceType;
use crate::tools::ToolDescriptor;

verus! {

/// How long a core tool may run in the foreground, in milliseconds.
pub const FOREGROUND_TIMEOUT_MS: u64 = 15000;

/// What the model is shown of a core tool: its description, the input
/// schema it fills in, the input fields the runtime fills in (field, runtime
/// value), and the resource scopes a call needs.
pub struct ModelMetadata {
    pub description: Seq<char>,
    pub model_schema: JsonModel,
    pub injected_fields: Seq<(Seq<char>, Seq<char>)>,
    pub required_resource_scopes: Seq<Seq<char>>,
}

/// The text of each (field, runtime value) pair.
pub open spec fn pair_texts(v: Seq<(String, String)>) -> Seq<(Seq<char>, Seq<char>)> {
    v.map_values(|p: (String, String)| (p.0@, p.1@))
}

/// `d` is the catalog entry `id` / `name` of a fresh kernel, made at `now`:
/// version 0.2.0, the given driver class, risk level and evidence type, the
/// foreground timeout, and no driver configuration.
pub open spec fn is_seed_tool(
    d: ToolDescriptor,
    id: Seq<char>,
    name: Seq<char>,
    class: ToolDriverClass,
    risk: u8,
    evidence: Option<EvidenceType>,
    now: String,
) -> bool {
    &&& d.tool_id@ == id
    &&& d.name@ == name
    &&& d.version@ == "0.2.0"@
    &&& d.driver_class == class
    &&& d.risk_level == risk
    &&& d.evidence_type == evidence
    &&& d.foreground_timeout_ms == FOREGROUND_TIMEOUT_MS
    &&& d.driver_config is Null
    &&& d.created_at@ == now@
}

/// `r` is `d` with every field kept but the model metadata.
pub open spec fn same_but_metadata(d: ToolDescriptor, r: ToolDescriptor) -> bool {
    &&& r.tool_id == d.tool_id
    &&& r.name == d.name
    &&& r.version == d.version
    &&& r.risk_level == d.risk_level
    &&& r.driver_class == d.driver_class
    &&& r.input_schema == d.input_schema
    &&& r.output_schema == d.output_schema
    &&& r.evidence_type == d.evidence_type
    &&& r.foreground_timeout_ms == d.foreground_timeout_ms
    &&& r.driver_config == d.driver_config
    &&& r.created_at == d.created_at
}

/// `d` carries the model metadata of the core tool it is named after.
pub open spec fn has_model_metadata(d: ToolDescriptor) -> bool {
    match model_metadata(d.name@) {
        Some(m) => {
            &&& d.description@ == m.description
            &&& (d.model_input_schema matches Some(s) && json_model(s) == m.model_schema)
            &&& pair_texts(d.injected_fields@) == m.injected_fields
            &&& texts(d.required_resource_scopes@) == m.required_resource_scopes
        },
        None => false,
    }
}

/// `r` is what adding the core model metadata makes of `d`: a core tool
/// gets its metadata and keeps everything else; any other tool is kept as
/// it is.
pub open spec fn with_model_metadata(d: ToolDescriptor, r: ToolDescriptor) -> bool {
    match model_metadata(d.name@) {
        Some(m) => same_but_metadata(d, r) && has_model_metadata(r),
        None => r == d,
    }
}

/// `d` with the given description, model-facing input schema, injected
/// fields and resource scopes.
fn with_metadata(
    d: ToolDescriptor,
    description: &str,
    model_schema: JsonValue,
    injected: Vec<(String, String)>,
    scopes: Vec<String>,
) -> (r: ToolDescriptor)
    ensures
        same_but_metadata(d, r),
        r.description@ == description@,
        r.model_input_schema == Some(model_schema),
        r.injected_fields == injected,
        r.required_resource_scopes == scopes,
{
    ToolDescriptor {
        description: String::from_str(description),
        model_input_schema: Some(model_schema),
        injected_fields: injected,
        required_resource_scopes: scopes,
        ..d
    }
}

/// The input schema of `write_file`.
pub open spec fn write_file_input_schema() -> JsonModel {
    JsonModel::Object(Seq::<(Seq<char>, JsonModel)>::empty().push(("additionalProperties"@, JsonModel::Bool(false))).push(("properties"@, JsonModel::Object(Seq::<(Seq<char>, JsonModel)>::empty().push(("content"@, JsonModel::Object(Seq::<(Seq<char>, JsonModel)>::empty().push(("type"@, JsonModel::Text("string"@)))))).push(("path"@, JsonModel::Object(Seq::<(Seq<char>, JsonModel)>::empty().push(("type"@, JsonModel::Text("string"@)))))).push(("workspace_root"@, JsonModel::Object(Seq::<(Seq<char>, JsonModel)>::empty().push(("type"@, JsonModel::Text("string"@))))))))).push(("required"@, JsonModel::Array(Seq::<JsonModel>::empty().push(JsonModel::Text("workspace_root"@)).push(JsonModel::Text("path"@)).push(JsonModel::Text("content"@))))).push(("type"@, JsonModel::Text("object"@))))
}

fn write_file_input_schema_value() -> (r: JsonValue)
    ensures
        json_model(r) == write_file_input_schema(),
{
    let mut m1: Vec<(String, JsonValue)> = Vec::new();
    push_member(&mut m1, "additionalProperties", json_bool(false));
    let mut m2: Vec<(String, JsonValue)> = Vec::new();
    let mut m3: Vec<(String, JsonValue)> = Vec::new();
    push_member(&mut m3, "type", json_text("string"));
    push_member(&mut m2, "content", json_object(m3));
    let mut m4: Vec<(String, JsonValue)> = Vec::new();
    push_member(&mut m4, "type", json_text("string"));
    push_member(&mut m2, "path", json_object(m4));
    let mut m5: Vec<(String, JsonValue)> = Vec::new();
    push_member(&mut m5, "type", json_text("string"));
    push_member(&mut m2, "workspace_root", json_object(m5));
    push_member(&mut m1, "properties", json_object(m2));
    let mut a6: Vec<JsonValue> = Vec::new();
    push_item(&mut a6, json_text("workspace_root"));
    push_item(&mut a6, json_text("path"));
    push_item(&mut a6, json_text("content"));
    push_member(&mut m1, "required", json_array(a6));
    push_member(&mut m1, "type", json_text("object"));
    json_object(m1)
}

/// The output schema of `write_file`.
pub open spec fn write_file_output_schema() -> JsonModel {
    JsonModel::Object(Seq::<(Seq<char>, JsonModel)>::empty().push(("additionalProperties"@, JsonModel::Bool(false))).push(("properties"@, JsonModel::Object(Seq::<(Seq<char>, JsonModel)>::empty().push(("bytes_written"@, JsonModel::Object(Seq::<(Seq<char>, JsonModel)>::empty().push(("type"@, JsonModel::Text("integer"@)))))).push(("driver_class"@, JsonModel::Object(Seq::<(Seq<char>, JsonModel)>::empty().push(("type"@, JsonModel::Text("string"@)))))).push(("input"@, JsonModel::Object(Seq::<(Seq<char>, JsonModel)>::empty().push(("type"@, JsonModel::Text("object"@)))))).push(("status"@, JsonModel::Object(Seq::<(Seq<char>, JsonModel)>::empty().push(("enum"@, JsonModel::Array(Seq::<JsonModel>::empty().push(JsonModel::Text("ok"@)))))))).push(("tool"@, JsonModel::Object(Seq::<(Seq<char>, JsonModel)>::empty().push(("type"@, JsonModel::Text("string"@)))))).push(("written_path"@, JsonModel::Object(Seq::<(Seq<char>, JsonModel)>::empty().push(("type"@, JsonModel::Text("string"@))))))))).push(("required"@, JsonModel::Array(Seq::<JsonModel>::empty().push(JsonModel::Text("tool"@)).push(JsonModel::Text("status"@)).push(JsonModel::Text("input"@)).push(JsonModel::Text("driver_class"@)).push(JsonModel::Text("written_path"@)).push(JsonModel::Text("bytes_written"@))))).push(("type"@, JsonModel::Text("object"@))))
}

fn write_file_output_schema_value() -> (r: JsonValue)
    ensures
        json_model(r) == write_file_output_schema(),
{
    let mut m1: Vec<(String, JsonValue)> = Vec::new();
    push_member(&mut m1, "additionalProperties", json_bool(false));
    let mut m2: Vec<(String, JsonValue)> = Vec::new();
    let mut m3: Vec<(String, JsonValue)> = Vec::new();
    push_member(&mut m3, "type", json_text("integer"));
    push_member(&mut m2, "bytes_written", json_object(m3));
    let mut m4: Vec<(String, JsonValue)> = Vec::new();
    push_member(&mut m4, "type", json_text("string"));
    push_member(&mut m2, "driver_class", json_object(m4));
    let mut m5: Vec<(String, JsonValue)> = Vec::new();
    push_member(&mut m5, "type", json_text("object"));
    push_member(&mut m2, "input", json_object(m5));
    let mut m6: Vec<(String, JsonValue)> = Vec::new();
    let mut a7: Vec<JsonValue> = Vec::new();
    push_item(&mut a7, json_text("ok"));
    push_member(&mut m6, "enum", json_array(a7));
    push_member(&mut m2, "status", json_object(m6));
    let mut m8: Vec<(String, JsonValue)> = Vec::new();
    push_member(&mut m8, "type", json_text("string"));
    push_member(&mut m2, "tool", json_object(m8));
    let mut m9: Vec<(String, JsonValue)> = Vec::new();
    push_member(&mut m9, "type", json_text("string"));
    push_member(&mut m2, "written_path", json_object(m9));
    push_member(&mut m1, "properties", json_object(m2));
    let mut a10: Vec<JsonValue> = Vec::new();
    push_item(&mut a10, json_text("tool"));
    push_item(&mut a10, json_text("status"));
    push_item(&mut a10, json_text("input"));
    push_item(&mut a10, json_text("driver_class"));
    push_item(&mut a10, json_text("written_path"));
    push_item(&mut a10, json_text("bytes_written"));
    push_member(&mut m1, "required", json_array(a10));
    push_member(&mut m1, "type", json_text("object"));
    json_object(m1)
}

/// The input schema of `read_file`.
pub open spec fn read_file_input_schema() -> JsonModel {
    JsonModel::Object(Seq::<(Seq<char>, JsonModel)>::empty().push(("additionalProperties"@, JsonModel::Bool(false))).push(("properties"@, JsonModel::Object(Seq::<(Seq<char>, JsonModel)>::empty().push(("path"@, JsonModel::Object(Seq::<(Seq<char>, JsonModel)>::empty().push(("type"@, JsonModel::Text("string"@)))))).push(("workspace_root"@, JsonModel::Object(Seq::<(Seq<char>, JsonModel)>::empty().push(("type"@, JsonModel::Text("string"@))))))))).push(("required"@, JsonModel::Array(Seq::<JsonModel>::empty().push(JsonModel::Text("workspace_root"@)).push(JsonModel::Text("path"@))))).push(("type"@, JsonModel::Text("object"@))))
}

fn read_file_input_schema_value() -> (r: JsonValue)
    ensures
        json_model(r) == read_file_input_schema(),
{
    let mut m1: Vec<(String, JsonValue)> = Vec::new();
    push_member(&mut m1, "additionalProperties", json_bool(false));
    let mut m2: Vec<(String, JsonValue)> = Vec::new();
    let mut m3: Vec<(String, JsonValue)> = Vec::new();
    push_member(&mut m3, "type", json_text("string"));
    push_member(&mut m2, "path", json_object(m3));
    let mut m4: Vec<(String, JsonValue)> = Vec::new();
    push_member(&mut m4, "type", json_text("string"));
    push_member(&mut m2, "workspace_root", json_object(m4));
    push_member(&mut m1, "properties", json_object(m2));
    let mut a5: Vec<JsonValue> = Vec::new();
    push_item(&mut a5, json_text("workspace_root"));
    push_item(&mut a5, json_text("path"));
    push_member(&mut m1, "required", json_array(a5));
    push_member(&mut m1, "type", json_text("object"));
    json_object(m1)
}

/// The output schema of `read_file`.
pub open spec fn read_file_output_schema() -> JsonModel {
    JsonModel::Object(Seq::<(Seq<char>, JsonModel)>::empty().push(("additionalProperties"@, JsonModel::Bool(false))).push(("properties"@, JsonModel::Object(Seq::<(Seq<char>, JsonModel)>::empty().push(("bytes_read"@, JsonModel::Object(Seq::<(Seq<char>, JsonModel)>::empty().push(("type"@, JsonModel::Text("integer"@)))))).push(("content"@, JsonModel::Object(Seq::<(Seq<char>, JsonModel)>::empty().push(("type"@, JsonModel::Text("string"@)))))).push(("driver_class"@, JsonModel::Object(Seq::<(Seq<char>, JsonModel)>::empty().push(("type"@, JsonModel::Text("string"@)))))).push(("input"@, JsonModel::Object(Seq::<(Seq<char>, JsonModel)>::empty().push(("type"@, JsonModel::Text("object"@)))))).push(("path"@, JsonModel::Object(Seq::<(Seq<char>, JsonModel)>::empty().push(("type"@, JsonModel::Text("string"@)))))).push(("status"@, JsonModel::Object(Seq::<(Seq<char>, JsonModel)>::empty().push(("enum"@, JsonModel::Array(Seq::<JsonModel>::empty().push(JsonModel::Text("ok"@)))))))).push(("tool"@, JsonModel::Object(Seq::<(Seq<char>, JsonModel)>::empty().push(("type"@, JsonModel::Text("string"@))))))))).push(("required"@, JsonModel::Array(Seq::<JsonModel>::empty().push(JsonModel::Text("tool"@)).push(JsonModel::Text("status"@)).push(JsonModel::Text("input"@)).push(JsonModel::Text("driver_class"@)).push(JsonModel::Text("path"@)).push(JsonModel::Text("content"@)).push(JsonModel::Text("bytes_read"@))))).push(("type"@, JsonModel::Text("object"@))))
}

fn read_file_output_schema_value() -> (r: JsonValue)
    ensures
        json_model(r) == read_file_output_schema(),
{
    let mut m1: Vec<(String, JsonValue)> = Vec::new();
    push_member(&mut m1, "additionalProperties", json_bool(false));
    let mut m2: Vec<(String, JsonValue)> = Vec::new();
    let mut m3: Vec<(String, JsonValue)> = Vec::new();
    push_member(&mut m3, "type", json_text("integer"));
    push_member(&mut m2, "bytes_read", json_object(m3));
    let mut m4: Vec<(String, JsonValue)> = Vec::new();
    push_member(&mut m4, "type", json_text("string"));
    push_member(&mut m2, "content", json_object(m4));
    let mut m5: Vec<(String, JsonValue)> = Vec::new();
    push_member(&mut m5, "type", json_text("string"));
    push_member(&mut m2, "driver_class", json_object(m5));
    let mut m6: Vec<(String, JsonValue)> = Vec::new();
    push_member(&mut m6, "type", json_text("object"));
    push_member(&mut m2, "input", json_object(m6));
    let mut m7: Vec<(String, JsonValue)> = Vec::new();
    push_member(&mut m7, "type", json_text("string"));
    push_member(&mut m2, "path", json_object(m7));
    let mut m8: Vec<(String, JsonValue)> = Vec::new();
    let mut a9: Vec<JsonValue> = Vec::new();
    push_item(&mut a9, json_text("ok"));
    push_member(&mut m8, "enum", json_array(a9));
    push_member(&mut m2, "status", json_object(m8));
    let mut m10: Vec<(String, JsonValue)> = Vec::new();
    push_member(&mut m10, "type", json_text("string"));
    push_member(&mut m2, "tool", json_object(m10));
    push_member(&mut m1, "properties", json_object(m2));
    let mut a11: Vec<JsonValue> = Vec::new();
    push_item(&mut a11, json_text("tool"));
    push_item(&mut a11, json_text("status"));
    push_item(&mut a11, json_text("input"));
    push_item(&mut a11, json_text("driver_class"));
    push_item(&mut a11, json_text("path"));
    push_item(&mut a11, json_text("content"));
    push_item(&mut a11, json_text("bytes_read"));
    push_member(&mut m1, "required", json_array(a11));
    push_member(&mut m1, "type", json_text("object"));
    json_object(m1)
}

/// The input schema of `delete_file`.
pub open spec fn delete_file_input_schema() -> JsonModel {
    JsonModel::Object(Seq::<(Seq<char>, JsonModel)>::empty().push(("additionalProperties"@, JsonModel::Bool(false))).push(("properties"@, JsonModel::Object(Seq::<(Seq<char>, JsonModel)>::empty().push(("path"@, JsonModel::Object(Seq::<(Seq<char>, JsonModel)>::empty().push(("type"@, JsonModel::Text("string"@)))))).push(("workspace_root"@, JsonModel::Object(Seq::<(Seq<char>, JsonModel)>::empty().push(("type"@, JsonModel::Text("string"@))))))))).push(("required"@, JsonModel::Array(Seq::<JsonModel>::empty().push(JsonModel::Text("workspace_root"@)).push(JsonModel::Text("path"@))))).push(("type"@, JsonModel::Text("object"@))))
}

fn delete_file_input_schema_value() -> (r: JsonValue)
    ensures
        json_model(r) == delete_file_input_schema(),
{
    let mut m1: Vec<(String, JsonValue)> = Vec::new();
    push_member(&mut m1, "additionalProperties", json_bool(false));
    let mut m2: Vec<(String, JsonValue)> = Vec::new();
    let mut m3: Vec<(String, JsonValue)> = Vec::new();
    push_member(&mut m3, "type", json_text("string"));
    push_member(&mut m2, "path", json_object(m3));
    let mut m4: Vec<(String, JsonValue)> = Vec::new();
    push_member(&mut m4, "type", json_text("string"));
    push_member(&mut m2, "workspace_root", json_object(m4));
    push_member(&mut m1, "properties", json_object(m2));
    let mut a5: Vec<JsonValue> = Vec::new();
    push_item(&mut a5, json_text("workspace_root"));
    push_item(&mut a5, json_text("path"));
    push_member(&mut m1, "required", json_array(a5));
    push_member(&mut m1, "type", json_text("object"));
    json_object(m1)
}

/// The output schema of `delete_file`.
pub open spec fn delete_file_output_schema() -> JsonModel {
    JsonModel::Object(Seq::<(Seq<char>, JsonModel)>::empty().push(("additionalProperties"@, JsonModel::Bool(false))).push(("properties"@, JsonModel::Object(Seq::<(Seq<char>, JsonModel)>::empty().push(("deleted_bytes"@, JsonModel::Object(Seq::<(Seq<char>, JsonModel)>::empty().push(("type"@, JsonModel::Text("integer"@)))))).push(("deleted_path"@, JsonModel::Object(Seq::<(Seq<char>, JsonModel)>::empty().push(("type"@, JsonModel::Text("string"@)))))).push(("driver_class"@, JsonModel::Object(Seq::<(Seq<char>, JsonModel)>::empty().push(("type"@, JsonModel::Text("string"@)))))).push(("input"@, JsonModel::Object(Seq::<(Seq<char>, JsonModel)>::empty().push(("type"@, JsonModel::Text("object"@)))))).push(("status"@, JsonModel::Object(Seq::<(Seq<char>, JsonModel)>::empty().push(("enum"@, JsonModel::Array(Seq::<JsonModel>::empty().push(JsonModel::Text("ok"@)))))))).push(("tool"@, JsonModel::Object(Seq::<(Seq<char>, JsonModel)>::empty().push(("type"@, JsonModel::Text("string"@))))))))).push(("required"@, JsonModel::Array(Seq::<JsonModel>::empty().push(JsonModel::Text("tool"@)).push(JsonModel::Text("status"@)).push(JsonModel::Text("input"@)).push(JsonModel::Text("driver_class"@)).push(JsonModel::Text("deleted_path"@)).push(JsonModel::Text("deleted_bytes"@))))).push(("type"@, JsonModel::Text("object"@))))
}

fn delete_file_output_schema_value() -> (r: JsonValue)
    ensures
        json_model(r) == delete_file_output_schema(),
{
    let mut m1: Vec<(String, JsonValue)> = Vec::new();
    push_member(&mut m1, "additionalProperties", json_bool(false));
    let mut m2: Vec<(String, JsonValue)> = Vec::new();
    let mut m3: Vec<(String, JsonValue)> = Vec::new();
    push_member(&mut m3, "type", json_text("integer"));
    push_member(&mut m2, "deleted_bytes", json_object(m3));
    let mut m4: Vec<(String, JsonValue)> = Vec::new();
    push_member(&mut m4, "type", json_text("string"));
    push_member(&mut m2, "deleted_path", json_object(m4));
    let mut m5: Vec<(String, JsonValue)> = Vec::new();
    push_member(&mut m5, "type", json_text("string"));
    push_member(&mut m2, "driver_class", json_object(m5));
    let mut m6: Vec<(String, JsonValue)> = Vec::new();
    push_member(&mut m6, "type", json_text("object"));
    push_member(&mut m2, "input", json_object(m6));
    let mut m7: Vec<(String, JsonValue)> = Vec::new();
    let mut a8: Vec<JsonValue> = Vec::new();
    push_item(&mut a8, json_text("ok"));
    push_member(&mut m7, "enum", json_array(a8));
    push_member(&mut m2, "status", json_object(m7));
    let mut m9: Vec<(String, JsonValue)> = Vec::new();
    push_member(&mut m9, "type", json_text("string"));
    push_member(&mut m2, "tool", json_object(m9));
    push_member(&mut m1, "properties", json_object(m2));
    let mut a10: Vec<JsonValue> = Vec::new();
    push_item(&mut a10, json_text("tool"));
    push_item(&mut a10, json_text("status"));
    push_item(&mut a10, json_text("input"));
    push_item(&mut a10, json_text("driver_class"));
    push_item(&mut a10, json_text("deleted_path"));
    push_item(&mut a10, json_text("deleted_bytes"));
    push_member(&mut m1, "required", json_array(a10));
    push_member(&mut m1, "type", json_text("object"));
    json_object(m1)
}

/// The input schema of `replace_text`.
pub open spec fn replace_text_input_schema() -> JsonModel {
    JsonModel::Object(Seq::<(Seq<char>, JsonModel)>::empty().push(("additionalProperties"@, JsonModel::Bool(false))).push(("properties"@, JsonModel::Object(Seq::<(Seq<char>, JsonModel)>::empty().push(("new"@, JsonModel::Object(Seq::<(Seq<char>, JsonModel)>::empty().push(("type"@, JsonModel::Text("string"@)))))).push(("old"@, JsonModel::Object(Seq::<(Seq<char>, JsonModel)>::empty().push(("type"@, JsonModel::Text("string"@)))))).push(("path"@, JsonModel::Object(Seq::<(Seq<char>, JsonModel)>::empty().push(("type"@, JsonModel::Text("string"@)))))).push(("workspace_root"@, JsonModel::Object(Seq::<(Seq<char>, JsonModel)>::empty().push(("type"@, JsonModel::Text("string"@))))))))).push(("required"@, JsonModel::Array(Seq::<JsonModel>::empty().push(JsonModel::Text("workspace_root"@)).push(JsonModel::Text("path"@)).push(JsonModel::Text("old"@)).push(JsonModel::Text("new"@))))).push(("type"@, JsonModel::Text("object"@))))
}

fn replace_text_input_schema_value() -> (r: JsonValue)
    ensures
        json_model(r) == replace_text_input_schema(),
{
    let mut m1: Vec<(String, JsonValue)> = Vec::new();
    push_member(&mut m1, "additionalProperties", json_bool(false));
    let mut m2: Vec<(String, JsonValue)> = Vec::new();
    let mut m3: Vec<(String, JsonValue)> = Vec::new();
    push_member(&mut m3, "type", json_text("string"));
    push_member(&mut m2, "new", json_object(m3));
    let mut m4: Vec<(String, JsonValue)> = Vec::new();
    push_member(&mut m4, "type", json_text("string"));
    push_member(&mut m2, "old", json_object(m4));
    let mut m5: Vec<(String, JsonValue)> = Vec::new();
    push_member(&mut m5, "type", json_text("string"));
    push_member(&mut m2, "path", json_object(m5));
    let mut m6: Vec<(String, JsonValue)> = Vec::new();
    push_member(&mut m6, "type", json_text("string"));
    push_member(&mut m2, "workspace_root", json_object(m6));
    push_member(&mut m1, "properties", json_object(m2));
    let mut a7: Vec<JsonValue> = Vec::new();
    push_item(&mut a7, json_text("workspace_root"));
    push_item(&mut a7, json_text("path"));
    push_item(&mut a7, json_text("old"));
    push_item(&mut a7, json_text("new"));
    push_member(&mut m1, "required", json_array(a7));
    push_member(&mut m1, "type", json_text("object"));
    json_object(m1)
}

/// The output schema of `replace_text`.
pub open spec fn replace_text_output_schema() -> JsonModel {
    JsonModel::Object(Seq::<(Seq<char>, JsonModel)>::empty().push(("additionalProperties"@, JsonModel::Bool(false))).push(("properties"@, JsonModel::Object(Seq::<(Seq<char>, JsonModel)>::empty().push(("after"@, JsonModel::Object(Seq::<(Seq<char>, JsonModel)>::empty().push(("type"@, JsonModel::Text("string"@)))))).push(("before"@, JsonModel::Object(Seq::<(Seq<char>, JsonModel)>::empty().push(("type"@, JsonModel::Text("string"@)))))).push(("changed_path"@, JsonModel::Object(Seq::<(Seq<char>, JsonModel)>::empty().push(("type"@, JsonModel::Text("string"@)))))).push(("driver_class"@, JsonModel::Object(Seq::<(Seq<char>, JsonModel)>::empty().push(("type"@, JsonModel::Text("string"@)))))).push(("input"@, JsonModel::Object(Seq::<(Seq<char>, JsonModel)>::empty().push(("type"@, JsonModel::Text("object"@)))))).push(("replacements"@, JsonModel::Object(Seq::<(Seq<char>, JsonModel)>::empty().push(("type"@, JsonModel::Text("integer"@)))))).push(("status"@, JsonModel::Object(Seq::<(Seq<char>, JsonModel)>::empty().push(("enum"@, JsonModel::Array(Seq::<JsonModel>::empty().push(JsonModel::Text("ok"@)))))))).push(("tool"@, JsonModel::Object(Seq::<(Seq<char>, JsonModel)>::empty().push(("type"@, JsonModel::Text("string"@))))))))).push(("required"@, JsonModel::Array(Seq::<JsonModel>::empty().push(JsonModel::Text("tool"@)).push(JsonModel::Text("status"@)).push(JsonModel::Text("input"@)).push(JsonModel::Text("driver_class"@)).push(JsonModel::Text("changed_path"@)).push(JsonModel::Text("replacements"@)).push(JsonModel::Text("before"@)).push(JsonModel::Text("after"@))))).push(("type"@, JsonModel::Text("object"@))))
}

fn replace_text_output_schema_value() -> (r: JsonValue)
    ensures
        json_model(r) == replace_text_output_schema(),
{
    let mut m1: Vec<(String, JsonValue)> = Vec::new();
    push_member(&mut m1, "additionalProperties", json_bool(false));
    let mut m2: Vec<(String, JsonValue)> = Vec::new();
    let mut m3: Vec<(String, JsonValue)> = Vec::new();
    push_member(&mut m3, "type", json_text("string"));
    push_member(&mut m2, "after", json_object(m3));
    let mut m4: Vec<(String, JsonValue)> = Vec::new();
    push_member(&mut m4, "type", json_text("string"));
    push_member(&mut m2, "before", json_object(m4));
    let mut m5: Vec<(String, JsonValue)> = Vec::new();
    push_member(&mut m5, "type", json_text("string"));
    push_member(&mut m2, "changed_path", json_object(m5));
    let mut m6: Vec<(String, JsonValue)> = Vec::new();
    push_member(&mut m6, "type", json_text("string"));
    push_member(&mut m2, "driver_class", json_object(m6));
    let mut m7: Vec<(String, JsonValue)> = Vec::new();
    push_member(&mut m7, "type", json_text("object"));
    push_member(&mut m2, "input", json_object(m7));
    let mut m8: Vec<(String, JsonValue)> = Vec::new();
    push_member(&mut m8, "type", json_text("integer"));
    push_member(&mut m2, "replacements", json_object(m8));
    let mut m9: Vec<(String, JsonValue)> = Vec::new();
    let mut a10: Vec<JsonValue> = Vec::new();
    push_item(&mut a10, json_text("ok"));
    push_member(&mut m9, "enum", json_array(a10));
    push_member(&mut m2, "status", json_object(m9));
    let mut m11: Vec<(String, JsonValue)> = Vec::new();
    push_member(&mut m11, "type", json_text("string"));
    push_member(&mut m2, "tool", json_object(m11));
    push_member(&mut m1, "properties", json_object(m2));
    let mut a12: Vec<JsonValue> = Vec::new();
    push_item(&mut a12, json_text("tool"));
    push_item(&mut a12, json_text("status"));
    push_item(&mut a12, json_text("input"));
    push_item(&mut a12, json_text("driver_class"));
    push_item(&mut a12, json_text("changed_path"));
    push_item(&mut a12, json_text("replacements"));
    push_item(&mut a12, json_text("before"));
    push_item(&mut a12, json_text("after"));
    push_member(&mut m1, "required", json_array(a12));
    push_member(&mut m1, "type", json_text("object"));
    json_object(m1)
}

/// The input schema of `run_command`.
pub open spec fn run_command_input_schema() -> JsonModel {
    JsonModel::Object(Seq::<(Seq<char>, JsonModel)>::empty().push(("additionalProperties"@, JsonModel::Bool(false))).push(("properties"@, JsonModel::Object(Seq::<(Seq<char>, JsonModel)>::empty().push(("args"@, JsonModel::Object(Seq::<(Seq<char>, JsonModel)>::empty().push(("items"@, JsonModel::Object(Seq::<(Seq<char>, JsonModel)>::empty().push(("type"@, JsonModel::Text("string"@)))))).push(("type"@, JsonModel::Text("array"@)))))).push(("cwd"@, JsonModel::Object(Seq::<(Seq<char>, JsonModel)>::empty().push(("type"@, JsonModel::Text("string"@)))))).push(("program"@, JsonModel::Object(Seq::<(Seq<char>, JsonModel)>::empty().push(("type"@, JsonModel::Text("string"@))))))))).push(("required"@, JsonModel::Array(Seq::<JsonModel>::empty().push(JsonModel::Text("program"@)).push(JsonModel::Text("args"@)).push(JsonModel::Text("cwd"@))))).push(("type"@, JsonModel::Text("object"@))))
}

fn run_command_input_schema_value() -> (r: JsonValue)
    ensures
        json_model(r) == run_command_input_schema(),
{
    let mut m1: Vec<(String, JsonValue)> = Vec::new();
    push_member(&mut m1, "additionalProperties", json_bool(false));
    let mut m2: Vec<(String, JsonValue)> = Vec::new();
    let mut m3: Vec<(String, JsonValue)> = Vec::new();
    let mut m4: Vec<(String, JsonValue)> = Vec::new();
    push_member(&mut m4, "type", json_text("string"));
    push_member(&mut m3, "items", json_object(m4));
    push_member(&mut m3, "type", json_text("array"));
    push_member(&mut m2, "args", json_object(m3));
    let mut m5: Vec<(String, JsonValue)> = Vec::new();
    push_member(&mut m5, "type", json_text("string"));
    push_member(&mut m2, "cwd", json_object(m5));
    let mut m6: Vec<(String, JsonValue)> = Vec::new();
    push_member(&mut m6, "type", json_text("string"));
    push_member(&mut m2, "program", json_object(m6));
    push_member(&mut m1, "properties", json_object(m2));
    let mut a7: Vec<JsonValue> = Vec::new();
    push_item(&mut a7, json_text("program"));
    push_item(&mut a7, json_text("args"));
    push_item(&mut a7, json_text("cwd"));
    push_member(&mut m1, "required", json_array(a7));
    push_member(&mut m1, "type", json_text("object"));
    json_object(m1)
}

/// The output schema of `run_command`.
pub open spec fn run_command_output_schema() -> JsonModel {
    JsonModel::Object(Seq::<(Seq<char>, JsonModel)>::empty().push(("additionalProperties"@, JsonModel::Bool(false))).push(("properties"@, JsonModel::Object(Seq::<(Seq<char>, JsonModel)>::empty().push(("driver_class"@, JsonModel::Object(Seq::<(Seq<char>, JsonModel)>::empty().push(("type"@, JsonModel::Text("string"@)))))).push(("exit_code"@, JsonModel::Object(Seq::<(Seq<char>, JsonModel)>::empty().push(("type"@, JsonModel::Text("integer"@)))))).push(("input"@, JsonModel::Object(Seq::<(Seq<char>, JsonModel)>::empty().push(("type"@, JsonModel::Text("object"@)))))).push(("status"@, JsonModel::Object(Seq::<(Seq<char>, JsonModel)>::empty().push(("enum"@, JsonModel::Array(Seq::<JsonModel>::empty().push(JsonModel::Text("ok"@)))))))).push(("stderr"@, JsonModel::Object(Seq::<(Seq<char>, JsonModel)>::empty().push(("type"@, JsonModel::Text("string"@)))))).push(("stdout"@, JsonModel::Object(Seq::<(Seq<char>, JsonModel)>::empty().push(("type"@, JsonModel::Text("string"@)))))).push(("tool"@, JsonModel::Object(Seq::<(Seq<char>, JsonModel)>::empty().push(("type"@, JsonModel::Text("string"@))))))))).push(("required"@, JsonModel::Array(Seq::<JsonModel>::empty().push(JsonModel::Text("tool"@)).push(JsonModel::Text("status"@)).push(JsonModel::Text("input"@)).push(JsonModel::Text("driver_class"@)).push(JsonModel::Text("exit_code"@)).push(JsonModel::Text("stdout"@)).push(JsonModel::Text("stderr"@))))).push(("type"@, JsonModel::Text("object"@))))
}

fn run_command_output_schema_value() -> (r: JsonValue)
    ensures
        json_model(r) == run_command_output_schema(),
{
    let mut m1: Vec<(String, JsonValue)> = Vec::new();
    push_member(&mut m1, "additionalProperties", json_bool(false));
    let mut m2: Vec<(String, JsonValue)> = Vec::new();
    let mut m3: Vec<(String, JsonValue)> = Vec::new();
    push_member(&mut m3, "type", json_text("string"));
    push_member(&mut m2, "driver_class", json_object(m3));
    let mut m4: Vec<(String, JsonValue)> = Vec::new();
    push_member(&mut m4, "type", json_text("integer"));
    push_member(&mut m2, "exit_code", json_object(m4));
    let mut m5: Vec<(String, JsonValue)> = Vec::new();
    push_member(&mut m5, "type", json_text("object"));
    push_member(&mut m2, "input", json_object(m5));
    let mut m6: Vec<(String, JsonValue)> = Vec::new();
    let mut a7: Vec<JsonValue> = Vec::new();
    push_item(&mut a7, json_text("ok"));
    push_member(&mut m6, "enum", json_array(a7));
    push_member(&mut m2, "status", json_object(m6));
    let mut m8: Vec<(String, JsonValue)> = Vec::new();
    push_member(&mut m8, "type", json_text("string"));
    push_member(&mut m2, "stderr", json_object(m8));
    let mut m9: Vec<(String, JsonValue)> = Vec::new();
    push_member(&mut m9, "type", json_text("string"));
    push_member(&mut m2, "stdout", json_object(m9));
    let mut m10: Vec<(String, JsonValue)> = Vec::new();
    push_member(&mut m10, "type", json_text("string"));
    push_member(&mut m2, "tool", json_object(m10));
    push_member(&mut m1, "properties", json_object(m2));
    let mut a11: Vec<JsonValue> = Vec::new();
    push_item(&mut a11, json_text("tool"));
    push_item(&mut a11, json_text("status"));
    push_item(&mut a11, json_text("input"));
    push_item(&mut a11, json_text("driver_class"));
    push_item(&mut a11, json_text("exit_code"));
    push_item(&mut a11, json_text("stdout"));
    push_item(&mut a11, json_text("stderr"));
    push_member(&mut m1, "required", json_array(a11));
    push_member(&mut m1, "type", json_text("object"));
    json_object(m1)
}

/// The input schema of `set_goal`.
pub open spec fn set_goal_input_schema() -> JsonModel {
    JsonModel::Object(Seq::<(Seq<char>, JsonModel)>::empty().push(("additionalProperties"@, JsonModel::Bool(false))).push(("properties"@, JsonModel::Object(Seq::<(Seq<char>, JsonModel)>::empty().push(("failure_criteria"@, JsonModel::Object(Seq::<(Seq<char>, JsonModel)>::empty().push(("items"@, JsonModel::Object(Seq::<(Seq<char>, JsonModel)>::empty().push(("type"@, JsonModel::Text("string"@)))))).push(("type"@, JsonModel::Text("array"@)))))).push(("goal"@, JsonModel::Object(Seq::<(Seq<char>, JsonModel)>::empty().push(("type"@, JsonModel::Text("string"@)))))).push(("success_criteria"@, JsonModel::Object(Seq::<(Seq<char>, JsonModel)>::empty().push(("items"@, JsonModel::Object(Seq::<(Seq<char>, JsonModel)>::empty().push(("type"@, JsonModel::Text("string"@)))))).push(("type"@, JsonModel::Text("array"@)))))).push(("target_agent_id"@, JsonModel::Object(Seq::<(Seq<char>, JsonModel)>::empty().push(("type"@, JsonModel::Text("string"@)))))).push(("target_thread_id"@, JsonModel::Object(Seq::<(Seq<char>, JsonModel)>::empty().push(("type"@, JsonModel::Text("string"@)))))).push(("title"@, JsonModel::Object(Seq::<(Seq<char>, JsonModel)>::empty().push(("type"@, JsonModel::Text("string"@))))))))).push(("required"@, JsonModel::Array(Seq::<JsonModel>::empty().push(JsonModel::Text("goal"@))))).push(("type"@, JsonModel::Text("object"@))))
}

fn set_goal_input_schema_value() -> (r: JsonValue)
    ensures
        json_model(r) == set_goal_input_schema(),
{
    let mut m1: Vec<(String, JsonValue)> = Vec::new();
    push_member(&mut m1, "additionalProperties", json_bool(false));
    let mut m2: Vec<(String, JsonValue)> = Vec::new();
    let mut m3: Vec<(String, JsonValue)> = Vec::new();
    let mut m4: Vec<(String, JsonValue)> = Vec::new();
    push_member(&mut m4, "type", json_text("string"));
    push_member(&mut m3, "items", json_object(m4));
    push_member(&mut m3, "type", json_text("array"));
    push_member(&mut m2, "failure_criteria", json_object(m3));
    let mut m5: Vec<(String, JsonValue)> = Vec::new();
    push_member(&mut m5, "type", json_text("string"));
    push_member(&mut m2, "goal", json_object(m5));
    let mut m6: Vec<(String, JsonValue)> = Vec::new();
    let mut m7: Vec<(String, JsonValue)> = Vec::new();
    push_member(&mut m7, "type", json_text("string"));
    push_member(&mut m6, "items", json_object(m7));
    push_member(&mut m6, "type", json_text("array"));
    push_member(&mut m2, "success_criteria", json_object(m6));
    let mut m8: Vec<(String, JsonValue)> = Vec::new();
    push_member(&mut m8, "type", json_text("string"));
    push_member(&mut m2, "target_agent_id", json_object(m8));
    let mut m9: Vec<(String, JsonValue)> = Vec::new();
    push_member(&mut m9, "type", json_text("string"));
    push_member(&mut m2, "target_thread_id", json_object(m9));
    let mut m10: Vec<(String, JsonValue)> = Vec::new();
    push_member(&mut m10, "type", json_text("string"));
    push_member(&mut m2, "title", json_object(m10));
    push_member(&mut m1, "properties", json_object(m2));
    let mut a11: Vec<JsonValue> = Vec::new();
    push_item(&mut a11, json_text("goal"));
    push_member(&mut m1, "required", json_array(a11));
    push_member(&mut m1, "type", json_text("object"));
    json_object(m1)
}

/// The output schema of `set_goal`.
pub open spec fn set_goal_output_schema() -> JsonModel {
    JsonModel::Object(Seq::<(Seq<char>, JsonModel)>::empty().push(("additionalProperties"@, JsonModel::Bool(false))).push(("properties"@, JsonModel::Object(Seq::<(Seq<char>, JsonModel)>::empty().push(("agent_id"@, JsonModel::Object(Seq::<(Seq<char>, JsonModel)>::empty().push(("type"@, JsonModel::Text("string"@)))))).push(("driver_class"@, JsonModel::Object(Seq::<(Seq<char>, JsonModel)>::empty().push(("type"@, JsonModel::Text("string"@)))))).push(("goal"@, JsonModel::Object(Seq::<(Seq<char>, JsonModel)>::empty().push(("type"@, JsonModel::Text("string"@)))))).push(("goal_revision"@, JsonModel::Object(Seq::<(Seq<char>, JsonModel)>::empty().push(("type"@, JsonModel::Text("integer"@)))))).push(("goal_status"@, JsonModel::Object(Seq::<(Seq<char>, JsonModel)>::empty().push(("type"@, JsonModel::Text("string"@)))))).push(("input"@, JsonModel::Object(Seq::<(Seq<char>, JsonModel)>::empty().push(("type"@, JsonModel::Text("object"@)))))).push(("status"@, JsonModel::Object(Seq::<(Seq<char>, JsonModel)>::empty().push(("enum"@, JsonModel::Array(Seq::<JsonModel>::empty().push(JsonModel::Text("ok"@)))))))).push(("task_id"@, JsonModel::Object(Seq::<(Seq<char>, JsonModel)>::empty().push(("type"@, JsonModel::Text("string"@)))))).push(("thread_id"@, JsonModel::Object(Seq::<(Seq<char>, JsonModel)>::empty().push(("type"@, JsonModel::Text("string"@)))))).push(("tool"@, JsonModel::Object(Seq::<(Seq<char>, JsonModel)>::empty().push(("type"@, JsonModel::Text("string"@))))))))).push(("required"@, JsonModel::Array(Seq::<JsonModel>::empty().push(JsonModel::Text("tool"@)).push(JsonModel::Text("status"@)).push(JsonModel::Text("input"@)).push(JsonModel::Text("driver_class"@)).push(JsonModel::Text("thread_id"@)).push(JsonModel::Text("agent_id"@)).push(JsonModel::Text("task_id"@)).push(JsonModel::Text("goal"@)).push(JsonModel::Text("goal_status"@)).push(JsonModel::Text("goal_revision"@))))).push(("type"@, JsonModel::Text("object"@))))
}

fn set_goal_output_schema_value() -> (r: JsonValue)
    ensures
        json_model(r) == set_goal_output_schema(),
{
    let mut m1: Vec<(String, JsonValue)> = Vec::new();
    push_member(&mut m1, "additionalProperties", json_bool(false));
    let mut m2: Vec<(String, JsonValue)> = Vec::new();
    let mut m3: Vec<(String, JsonValue)> = Vec::new();
    push_member(&mut m3, "type", json_text("string"));
    push_member(&mut m2, "agent_id", json_object(m3));
    let mut m4: Vec<(String, JsonValue)> = Vec::new();
    push_member(&mut m4, "type", json_text("string"));
    push_member(&mut m2, "driver_class", json_object(m4));
    let mut m5: Vec<(String, JsonValue)> = Vec::new();
    push_member(&mut m5, "type", json_text("string"));
    push_member(&mut m2, "goal", json_object(m5));
    let mut m6: Vec<(String, JsonValue)> = Vec::new();
    push_member(&mut m6, "type", json_text("integer"));
    push_member(&mut m2, "goal_revision", json_object(m6));
    let mut m7: Vec<(String, JsonValue)> = Vec::new();
    push_member(&mut m7, "type", json_text("string"));
    push_member(&mut m2, "goal_status", json_object(m7));
    let mut m8: Vec<(String, JsonValue)> = Vec::new();
    push_member(&mut m8, "type", json_text("object"));
    push_member(&mut m2, "input", json_object(m8));
    let mut m9: Vec<(String, JsonValue)> = Vec::new();
    let mut a10: Vec<JsonValue> = Vec::new();
    push_item(&mut a10, json_text("ok"));
    push_member(&mut m9, "enum", json_array(a10));
    push_member(&mut m2, "status", json_object(m9));
    let mut m11: Vec<(String, JsonValue)> = Vec::new();
    push_member(&mut m11, "type", json_text("string"));
    push_member(&mut m2, "task_id", json_object(m11));
    let mut m12: Vec<(String, JsonValue)> = Vec::new();
    push_member(&mut m12, "type", json_text("string"));
    push_member(&mut m2, "thread_id", json_object(m12));
    let mut m13: Vec<(String, JsonValue)> = Vec::new();
    push_member(&mut m13, "type", json_text("string"));
    push_member(&mut m2, "tool", json_object(m13));
    push_member(&mut m1, "properties", json_object(m2));
    let mut a14: Vec<JsonValue> = Vec::new();
    push_item(&mut a14, json_text("tool"));
    push_item(&mut a14, json_text("status"));
    push_item(&mut a14, json_text("input"));
    push_item(&mut a14, json_text("driver_class"));
    push_item(&mut a14, json_text("thread_id"));
    push_item(&mut a14, json_text("agent_id"));
    push_item(&mut a14, json_text("task_id"));
    push_item(&mut a14, json_text("goal"));
    push_item(&mut a14, json_text("goal_status"));
    push_item(&mut a14, json_text("goal_revision"));
    push_member(&mut m1, "required", json_array(a14));
    push_member(&mut m1, "type", json_text("object"));
    json_object(m1)
}

/// The input schema of `accomplish_goal`.
pub open spec fn accomplish_goal_input_schema() -> JsonModel {
    JsonModel::Object(Seq::<(Seq<char>, JsonModel)>::empty().push(("additionalProperties"@, JsonModel::Bool(false))).push(("properties"@, JsonModel::Object(Seq::<(Seq<char>, JsonModel)>::empty().push(("artifact_refs"@, JsonModel::Object(Seq::<(Seq<char>, JsonModel)>::empty().push(("items"@, JsonModel::Object(Seq::<(Seq<char>, JsonModel)>::empty().push(("type"@, JsonModel::Text("string"@)))))).push(("type"@, JsonModel::Text("array"@)))))).push(("evidence_refs"@, JsonModel::Object(Seq::<(Seq<char>, JsonModel)>::empty().push(("items"@, JsonModel::Object(Seq::<(Seq<char>, JsonModel)>::empty().push(("type"@, JsonModel::Text("string"@)))))).push(("type"@, JsonModel::Text("array"@)))))).push(("known_risks"@, JsonModel::Object(Seq::<(Seq<char>, JsonModel)>::empty().push(("items"@, JsonModel::Object(Seq::<(Seq<char>, JsonModel)>::empty().push(("type"@, JsonModel::Text("string"@)))))).push(("type"@, JsonModel::Text("array"@)))))).push(("summary"@, JsonModel::Object(Seq::<(Seq<char>, JsonModel)>::empty().push(("type"@, JsonModel::Text("string"@))))))))).push(("required"@, JsonModel::Array(Seq::<JsonModel>::empty().push(JsonModel::Text("summary"@))))).push(("type"@, JsonModel::Text("object"@))))
}

fn accomplish_goal_input_schema_value() -> (r: JsonValue)
    ensures
        json_model(r) == accomplish_goal_input_schema(),
{
    let mut m1: Vec<(String, JsonValue)> = Vec::new();
    push_member(&mut m1, "additionalProperties", json_bool(false));
    let mut m2: Vec<(String, JsonValue)> = Vec::new();
    let mut m3: Vec<(String, JsonValue)> = Vec::new();
    let mut m4: Vec<(String, JsonValue)> = Vec::new();
    push_member(&mut m4, "type", json_text("string"));
    push_member(&mut m3, "items", json_object(m4));
    push_member(&mut m3, "type", json_text("array"));
    push_member(&mut m2, "artifact_refs", json_object(m3));
    let mut m5: Vec<(String, JsonValue)> = Vec::new();
    let mut m6: Vec<(String, JsonValue)> = Vec::new();
    push_member(&mut m6, "type", json_text("string"));
    push_member(&mut m5, "items", json_object(m6));
    push_member(&mut m5, "type", json_text("array"));
    push_member(&mut m2, "evidence_refs", json_object(m5));
    let mut m7: Vec<(String, JsonValue)> = Vec::new();
    let mut m8: Vec<(String, JsonValue)> = Vec::new();
    push_member(&mut m8, "type", json_text("string"));
    push_member(&mut m7, "items", json_object(m8));
    push_member(&mut m7, "type", json_text("array"));
    push_member(&mut m2, "known_risks", json_object(m7));
    let mut m9: Vec<(String, JsonValue)> = Vec::new();
    push_member(&mut m9, "type", json_text("string"));
    push_member(&mut m2, "summary", json_object(m9));
    push_member(&mut m1, "properties", json_object(m2));
    let mut a10: Vec<JsonValue> = Vec::new();
    push_item(&mut a10, json_text("summary"));
    push_member(&mut m1, "required", json_array(a10));
    push_member(&mut m1, "type", json_text("object"));
    json_object(m1)
}

/// The output schema of `accomplish_goal`.
pub open spec fn accomplish_goal_output_schema() -> JsonModel {
    JsonModel::Object(Seq::<(Seq<char>, JsonModel)>::empty().push(("additionalProperties"@, JsonModel::Bool(false))).push(("properties"@, JsonModel::Object(Seq::<(Seq<char>, JsonModel)>::empty().push(("agent_id"@, JsonModel::Object(Seq::<(Seq<char>, JsonModel)>::empty().push(("type"@, JsonModel::Text("string"@)))))).push(("driver_class"@, JsonModel::Object(Seq::<(Seq<char>, JsonModel)>::empty().push(("type"@, JsonModel::Text("string"@)))))).push(("goal"@, JsonModel::Object(Seq::<(Seq<char>, JsonModel)>::empty().push(("type"@, JsonModel::Text("string"@)))))).push(("goal_accomplished"@, JsonModel::Object(Seq::<(Seq<char>, JsonModel)>::empty().push(("type"@, JsonModel::Text("boolean"@)))))).push(("goal_status"@, JsonModel::Object(Seq::<(Seq<char>, JsonModel)>::empty().push(("type"@, JsonModel::Text("string"@)))))).push(("hooks_completed"@, JsonModel::Object(Seq::<(Seq<char>, JsonModel)>::empty().push(("type"@, JsonModel::Text("integer"@)))))).push(("input"@, JsonModel::Object(Seq::<(Seq<char>, JsonModel)>::empty().push(("type"@, JsonModel::Text("object"@)))))).push(("status"@, JsonModel::Object(Seq::<(Seq<char>, JsonModel)>::empty().push(("enum"@, JsonModel::Array(Seq::<JsonModel>::empty().push(JsonModel::Text("ok"@)))))))).push(("summary"@, JsonModel::Object(Seq::<(Seq<char>, JsonModel)>::empty().push(("type"@, JsonModel::Text("string"@)))))).push(("task_id"@, JsonModel::Object(Seq::<(Seq<char>, JsonModel)>::empty().push(("type"@, JsonModel::Text("string"@)))))).push(("thread_id"@, JsonModel::Object(Seq::<(Seq<char>, JsonModel)>::empty().push(("type"@, JsonModel::Text("string"@)))))).push(("tool"@, JsonModel::Object(Seq::<(Seq<char>, JsonModel)>::empty().push(("type"@, JsonModel::Text("string"@))))))))).push(("required"@, JsonModel::Array(Seq::<JsonModel>::empty().push(JsonModel::Text("tool"@)).push(JsonModel::Text("status"@)).push(JsonModel::Text("input"@)).push(JsonModel::Text("driver_class"@)).push(JsonModel::Text("thread_id"@)).push(JsonModel::Text("agent_id"@)).push(JsonModel::Text("task_id"@)).push(JsonModel::Text("goal"@)).push(JsonModel::Text("goal_status"@)).push(JsonModel::Text("goal_accomplished"@)).push(JsonModel::Text("summary"@)).push(JsonModel::Text("hooks_completed"@))))).push(("type"@, JsonModel::Text("object"@))))
}

fn accomplish_goal_output_schema_value() -> (r: JsonValue)
    ensures
        json_model(r) == accomplish_goal_output_schema(),
{
    let mut m1: Vec<(String, JsonValue)> = Vec::new();
    push_member(&mut m1, "additionalProperties", json_bool(false));
    let mut m2: Vec<(String, JsonValue)> = Vec::new();
    let mut m3: Vec<(String, JsonValue)> = Vec::new();
    push_member(&mut m3, "type", json_text("string"));
    push_member(&mut m2, "agent_id", json_object(m3));
    let mut m4: Vec<(String, JsonValue)> = Vec::new();
    push_member(&mut m4, "type", json_text("string"));
    push_member(&mut m2, "driver_class", json_object(m4));
    let mut m5: Vec<(String, JsonValue)> = Vec::new();
    push_member(&mut m5, "type", json_text("string"));
    push_member(&mut m2, "goal", json_object(m5));
    let mut m6: Vec<(String, JsonValue)> = Vec::new();
    push_member(&mut m6, "type", json_text("boolean"));
    push_member(&mut m2, "goal_accomplished", json_object(m6));
    let mut m7: Vec<(String, JsonValue)> = Vec::new();
    push_member(&mut m7, "type", json_text("string"));
    push_member(&mut m2, "goal_status", json_object(m7));
    let mut m8: Vec<(String, JsonValue)> = Vec::new();
    push_member(&mut m8, "type", json_text("integer"));
    push_member(&mut m2, "hooks_completed", json_object(m8));
    let mut m9: Vec<(String, JsonValue)> = Vec::new();
    push_member(&mut m9, "type", json_text("object"));
    push_member(&mut m2, "input", json_object(m9));
    let mut m10: Vec<(String, JsonValue)> = Vec::new();
    let mut a11: Vec<JsonValue> = Vec::new();
    push_item(&mut a11, json_text("ok"));
    push_member(&mut m10, "enum", json_array(a11));
    push_member(&mut m2, "status", json_object(m10));
    let mut m12: Vec<(String, JsonValue)> = Vec::new();
    push_member(&mut m12, "type", json_text("string"));
    push_member(&mut m2, "summary", json_object(m12));
    let mut m13: Vec<(String, JsonValue)> = Vec::new();
    push_member(&mut m13, "type", json_text("string"));
    push_member(&mut m2, "task_id", json_object(m13));
    let mut m14: Vec<(String, JsonValue)> = Vec::new();
    push_member(&mut m14, "type", json_text("string"));
    push_member(&mut m2, "thread_id", json_object(m14));
    let mut m15: Vec<(String, JsonValue)> = Vec::new();
    push_member(&mut m15, "type", json_text("string"));
    push_member(&mut m2, "tool", json_object(m15));
    push_member(&mut m1, "properties", json_object(m2));
    let mut a16: Vec<JsonValue> = Vec::new();
    push_item(&mut a16, json_text("tool"));
    push_item(&mut a16, json_text("status"));
    push_item(&mut a16, json_text("input"));
    push_item(&mut a16, json_text("driver_class"));
    push_item(&mut a16, json_text("thread_id"));
    push_item(&mut a16, json_text("agent_id"));
    push_item(&mut a16, json_text("task_id"));
    push_item(&mut a16, json_text("goal"));
    push_item(&mut a16, json_text("goal_status"));
    push_item(&mut a16, json_text("goal_accomplished"));
    push_item(&mut a16, json_text("summary"));
    push_item(&mut a16, json_text("hooks_completed"));
    push_member(&mut m1, "required", json_array(a16));
    push_member(&mut m1, "type", json_text("object"));
    json_object(m1)
}

/// The input schema of `update_checklist`.
pub open spec fn update_checklist_input_schema() -> JsonModel {
    JsonModel::Object(Seq::<(Seq<char>, JsonModel)>::empty().push(("additionalProperties"@, JsonModel::Bool(false))).push(("properties"@, JsonModel::Object(Seq::<(Seq<char>, JsonModel)>::empty().push(("items"@, JsonModel::Object(Seq::<(Seq<char>, JsonModel)>::empty().push(("items"@, JsonModel::Object(Seq::<(Seq<char>, JsonModel)>::empty().push(("additionalProperties"@, JsonModel::Bool(false))).push(("properties"@, JsonModel::Object(Seq::<(Seq<char>, JsonModel)>::empty().push(("status"@, JsonModel::Object(Seq::<(Seq<char>, JsonModel)>::empty().push(("enum"@, JsonModel::Array(Seq::<JsonModel>::empty().push(JsonModel::Text("pending"@)).push(JsonModel::Text("in_progress"@)).push(JsonModel::Text("completed"@)).push(JsonModel::Text("blocked"@)))))))).push(("text"@, JsonModel::Object(Seq::<(Seq<char>, JsonModel)>::empty().push(("type"@, JsonModel::Text("string"@))))))))).push(("required"@, JsonModel::Array(Seq::<JsonModel>::empty().push(JsonModel::Text("text"@))))).push(("type"@, JsonModel::Text("object"@)))))).push(("type"@, JsonModel::Text("array"@)))))).push(("task_id"@, JsonModel::Object(Seq::<(Seq<char>, JsonModel)>::empty().push(("type"@, JsonModel::Text("string"@))))))))).push(("required"@, JsonModel::Array(Seq::<JsonModel>::empty().push(JsonModel::Text("items"@))))).push(("type"@, JsonModel::Text("object"@))))
}

fn update_checklist_input_schema_value() -> (r: JsonValue)
    ensures
        json_model(r) == update_checklist_input_schema(),
{
    let mut m1: Vec<(String, JsonValue)> = Vec::new();
    push_member(&mut m1, "additionalProperties", json_bool(false));
    let mut m2: Vec<(String, JsonValue)> = Vec::new();
    let mut m3: Vec<(String, JsonValue)> = Vec::new();
    let mut m4: Vec<(String, JsonValue)> = Vec::new();
    push_member(&mut m4, "additionalProperties", json_bool(false));
    let mut m5: Vec<(String, JsonValue)> = Vec::new();
    let mut m6: Vec<(String, JsonValue)> = Vec::new();
    let mut a7: Vec<JsonValue> = Vec::new();
    push_item(&mut a7, json_text("pending"));
    push_item(&mut a7, json_text("in_progress"));
    push_item(&mut a7, json_text("completed"));
    push_item(&mut a7, json_text("blocked"));
    push_member(&mut m6, "enum", json_array(a7));
    push_member(&mut m5, "status", json_object(m6));
    let mut m8: Vec<(String, JsonValue)> = Vec::new();
    push_member(&mut m8, "type", json_text("string"));
    push_member(&mut m5, "text", json_object(m8));
    push_member(&mut m4, "properties", json_object(m5));
    let mut a9: Vec<JsonValue> = Vec::new();
    push_item(&mut a9, json_text("text"));
    push_member(&mut m4, "required", json_array(a9));
    push_member(&mut m4, "type", json_text("object"));
    push_member(&mut m3, "items", json_object(m4));
    push_member(&mut m3, "type", json_text("array"));
    push_member(&mut m2, "items", json_object(m3));
    let mut m10: Vec<(String, JsonValue)> = Vec::new();
    push_member(&mut m10, "type", json_text("string"));
    push_member(&mut m2, "task_id", json_object(m10));
    push_member(&mut m1, "properties", json_object(m2));
    let mut a11: Vec<JsonValue> = Vec::new();
    push_item(&mut a11, json_text("items"));
    push_member(&mut m1, "required", json_array(a11));
    push_member(&mut m1, "type", json_text("object"));
    json_object(m1)
}

/// The output schema of `update_checklist`.
pub open spec fn update_checklist_output_schema() -> JsonModel {
    JsonModel::Object(Seq::<(Seq<char>, JsonModel)>::empty().push(("additionalProperties"@, JsonModel::Bool(false))).push(("properties"@, JsonModel::Object(Seq::<(Seq<char>, JsonModel)>::empty().push(("driver_class"@, JsonModel::Object(Seq::<(Seq<char>, JsonModel)>::empty().push(("type"@, JsonModel::Text("string"@)))))).push(("input"@, JsonModel::Object(Seq::<(Seq<char>, JsonModel)>::empty().push(("type"@, JsonModel::Text("object"@)))))).push(("items"@, JsonModel::Object(Seq::<(Seq<char>, JsonModel)>::empty().push(("type"@, JsonModel::Text("array"@)))))).push(("status"@, JsonModel::Object(Seq::<(Seq<char>, JsonModel)>::empty().push(("enum"@, JsonModel::Array(Seq::<JsonModel>::empty().push(JsonModel::Text("ok"@)))))))).push(("task_id"@, JsonModel::Object(Seq::<(Seq<char>, JsonModel)>::empty().push(("type"@, JsonModel::Text("string"@)))))).push(("tool"@, JsonModel::Object(Seq::<(Seq<char>, JsonModel)>::empty().push(("type"@, JsonModel::Text("string"@))))))))).push(("required"@, JsonModel::Array(Seq::<JsonModel>::empty().push(JsonModel::Text("tool"@)).push(JsonModel::Text("status"@)).push(JsonModel::Text("input"@)).push(JsonModel::Text("driver_class"@)).push(JsonModel::Text("task_id"@)).push(JsonModel::Text("items"@))))).push(("type"@, JsonModel::Text("object"@))))
}

fn update_checklist_output_schema_value() -> (r: JsonValue)
    ensures
        json_model(r) == update_checklist_output_schema(),
{
    let mut m1: Vec<(String, JsonValue)> = Vec::new();
    push_member(&mut m1, "additionalProperties", json_bool(false));
    let mut m2: Vec<(String, JsonValue)> = Vec::new();
    let mut m3: Vec<(String, JsonValue)> = Vec::new();
    push_member(&mut m3, "type", json_text("string"));
    push_member(&mut m2, "driver_class", json_object(m3));
    let mut m4: Vec<(String, JsonValue)> = Vec::new();
    push_member(&mut m4, "type", json_text("object"));
    push_member(&mut m2, "input", json_object(m4));
    let mut m5: Vec<(String, JsonValue)> = Vec::new();
    push_member(&mut m5, "type", json_text("array"));
    push_member(&mut m2, "items", json_object(m5));
    let mut m6: Vec<(String, JsonValue)> = Vec::new();
    let mut a7: Vec<JsonValue> = Vec::new();
    push_item(&mut a7, json_text("ok"));
    push_member(&mut m6, "enum", json_array(a7));
    push_member(&mut m2, "status", json_object(m6));
    let mut m8: Vec<(String, JsonValue)> = Vec::new();
    push_member(&mut m8, "type", json_text("string"));
    push_member(&mut m2, "task_id", json_object(m8));
    let mut m9: Vec<(String, JsonValue)> = Vec::new();
    push_member(&mut m9, "type", json_text("string"));
    push_member(&mut m2, "tool", json_object(m9));
    push_member(&mut m1, "properties", json_object(m2));
    let mut a10: Vec<JsonValue> = Vec::new();
    push_item(&mut a10, json_text("tool"));
    push_item(&mut a10, json_text("status"));
    push_item(&mut a10, json_text("input"));
    push_item(&mut a10, json_text("driver_class"));
    push_item(&mut a10, json_text("task_id"));
    push_item(&mut a10, json_text("items"));
    push_member(&mut m1, "required", json_array(a10));
    push_member(&mut m1, "type", json_text("object"));
    json_object(m1)
}

/// The input schema of `record_evidence`.
pub open spec fn record_evidence_input_schema() -> JsonModel {
    JsonModel::Object(Seq::<(Seq<char>, JsonModel)>::empty().push(("additionalProperties"@, JsonModel::Bool(false))).push(("properties"@, JsonModel::Object(Seq::<(Seq<char>, JsonModel)>::empty().push(("artifact_id"@, JsonModel::Object(Seq::<(Seq<char>, JsonModel)>::empty().push(("type"@, JsonModel::Text("string"@)))))).push(("blob_ref"@, JsonModel::Object(Seq::<(Seq<char>, JsonModel)>::empty().push(("type"@, JsonModel::Text("string"@)))))).push(("claim"@, JsonModel::Object(Seq::<(Seq<char>, JsonModel)>::empty().push(("type"@, JsonModel::Text("string"@)))))).push(("content_hash"@, JsonModel::Object(Seq::<(Seq<char>, JsonModel)>::empty().push(("type"@, JsonModel::Text("string"@)))))).push(("evidence_type"@, JsonModel::Object(Seq::<(Seq<char>, JsonModel)>::empty().push(("enum"@, JsonModel::Array(Seq::<JsonModel>::empty().push(JsonModel::Text("source_ref"@)).push(JsonModel::Text("diff_ref"@)).push(JsonModel::Text("command_log"@)).push(JsonModel::Text("test_result"@)).push(JsonModel::Text("benchmark_result"@)).push(JsonModel::Text("review_finding"@)).push(JsonModel::Text("approval_record"@)).push(JsonModel::Text("runtime_trace"@)).push(JsonModel::Text("screenshot"@)).push(JsonModel::Text("external_reference"@)))))))).push(("inline_content"@, JsonModel::Object(Seq::<(Seq<char>, JsonModel)>::empty().push(("type"@, JsonModel::Text("string"@)))))).push(("metadata"@, JsonModel::Object(Seq::<(Seq<char>, JsonModel)>::empty().push(("type"@, JsonModel::Text("object"@)))))).push(("task_id"@, JsonModel::Object(Seq::<(Seq<char>, JsonModel)>::empty().push(("type"@, JsonModel::Text("string"@))))))))).push(("required"@, JsonModel::Array(Seq::<JsonModel>::empty().push(JsonModel::Text("evidence_type"@)).push(JsonModel::Text("claim"@))))).push(("type"@, JsonModel::Text("object"@))))
}

fn record_evidence_input_schema_value() -> (r: JsonValue)
    ensures
        json_model(r) == record_evidence_input_schema(),
{
    let mut m1: Vec<(String, JsonValue)> = Vec::new();
    push_member(&mut m1, "additionalProperties", json_bool(false));
    let mut m2: Vec<(String, JsonValue)> = Vec::new();
    let mut m3: Vec<(String, JsonValue)> = Vec::new();
    push_member(&mut m3, "type", json_text("string"));
    push_member(&mut m2, "artifact_id", json_object(m3));
    let mut m4: Vec<(String, JsonValue)> = Vec::new();
    push_member(&mut m4, "type", json_text("string"));
    push_member(&mut m2, "blob_ref", json_object(m4));
    let mut m5: Vec<(String, JsonValue)> = Vec::new();
    push_member(&mut m5, "type", json_text("string"));
    push_member(&mut m2, "claim", json_object(m5));
    let mut m6: Vec<(String, JsonValue)> = Vec::new();
    push_member(&mut m6, "type", json_text("string"));
    push_member(&mut m2, "content_hash", json_object(m6));
    let mut m7: Vec<(String, JsonValue)> = Vec::new();
    let mut a8: Vec<JsonValue> = Vec::new();
    push_item(&mut a8, json_text("source_ref"));
    push_item(&mut a8, json_text("diff_ref"));
    push_item(&mut a8, json_text("command_log"));
    push_item(&mut a8, json_text("test_result"));
    push_item(&mut a8, json_text("benchmark_result"));
    push_item(&mut a8, json_text("review_finding"));
    push_item(&mut a8, json_text("approval_record"));
    push_item(&mut a8, json_text("runtime_trace"));
    push_item(&mut a8, json_text("screenshot"));
    push_item(&mut a8, json_text("external_reference"));
    push_member(&mut m7, "enum", json_array(a8));
    push_member(&mut m2, "evidence_type", json_object(m7));
    let mut m9: Vec<(String, JsonValue)> = Vec::new();
    push_member(&mut m9, "type", json_text("string"));
    push_member(&mut m2, "inline_content", json_object(m9));
    let mut m10: Vec<(String, JsonValue)> = Vec::new();
    push_member(&mut m10, "type", json_text("object"));
    push_member(&mut m2, "metadata", json_object(m10));
    let mut m11: Vec<(String, JsonValue)> = Vec::new();
    push_member(&mut m11, "type", json_text("string"));
    push_member(&mut m2, "task_id", json_object(m11));
    push_member(&mut m1, "properties", json_object(m2));
    let mut a12: Vec<JsonValue> = Vec::new();
    push_item(&mut a12, json_text("evidence_type"));
    push_item(&mut a12, json_text("claim"));
    push_member(&mut m1, "required", json_array(a12));
    push_member(&mut m1, "type", json_text("object"));
    json_object(m1)
}

/// The output schema of `record_evidence`.
pub open spec fn record_evidence_output_schema() -> JsonModel {
    JsonModel::Object(Seq::<(Seq<char>, JsonModel)>::empty().push(("additionalProperties"@, JsonModel::Bool(false))).push(("properties"@, JsonModel::Object(Seq::<(Seq<char>, JsonModel)>::empty().push(("claim"@, JsonModel::Object(Seq::<(Seq<char>, JsonModel)>::empty().push(("type"@, JsonModel::Text("string"@)))))).push(("driver_class"@, JsonModel::Object(Seq::<(Seq<char>, JsonModel)>::empty().push(("type"@, JsonModel::Text("string"@)))))).push(("evidence_id"@, JsonModel::Object(Seq::<(Seq<char>, JsonModel)>::empty().push(("type"@, JsonModel::Text("string"@)))))).push(("evidence_type"@, JsonModel::Object(Seq::<(Seq<char>, JsonModel)>::empty().push(("type"@, JsonModel::Text("string"@)))))).push(("input"@, JsonModel::Object(Seq::<(Seq<char>, JsonModel)>::empty().push(("type"@, JsonModel::Text("object"@)))))).push(("status"@, JsonModel::Object(Seq::<(Seq<char>, JsonModel)>::empty().push(("enum"@, JsonModel::Array(Seq::<JsonModel>::empty().push(JsonModel::Text("ok"@)))))))).push(("tool"@, JsonModel::Object(Seq::<(Seq<char>, JsonModel)>::empty().push(("type"@, JsonModel::Text("string"@))))))))).push(("required"@, JsonModel::Array(Seq::<JsonModel>::empty().push(JsonModel::Text("tool"@)).push(JsonModel::Text("status"@)).push(JsonModel::Text("input"@)).push(JsonModel::Text("driver_class"@)).push(JsonModel::Text("evidence_id"@)).push(JsonModel::Text("evidence_type"@))))).push(("type"@, JsonModel::Text("object"@))))
}

fn record_evidence_output_schema_value() -> (r: JsonValue)
    ensures
        json_model(r) == record_evidence_output_schema(),
{
    let mut m1: Vec<(String, JsonValue)> = Vec::new();
    push_member(&mut m1, "additionalProperties", json_bool(false));
    let mut m2: Vec<(String, JsonValue)> = Vec::new();
    let mut m3: Vec<(String, JsonValue)> = Vec::new();
    push_member(&mut m3, "type", json_text("string"));
    push_member(&mut m2, "claim", json_object(m3));
    let mut m4: Vec<(String, JsonValue)> = Vec::new();
    push_member(&mut m4, "type", json_text("string"));
    push_member(&mut m2, "driver_class", json_object(m4));
    let mut m5: Vec<(String, JsonValue)> = Vec::new();
    push_member(&mut m5, "type", json_text("string"));
    push_member(&mut m2, "evidence_id", json_object(m5));
    let mut m6: Vec<(String, JsonValue)> = Vec::new();
    push_member(&mut m6, "type", json_text("string"));
    push_member(&mut m2, "evidence_type", json_object(m6));
    let mut m7: Vec<(String, JsonValue)> = Vec::new();
    push_member(&mut m7, "type", json_text("object"));
    push_member(&mut m2, "input", json_object(m7));
    let mut m8: Vec<(String, JsonValue)> = Vec::new();
    let mut a9: Vec<JsonValue> = Vec::new();
    push_item(&mut a9, json_text("ok"));
    push_member(&mut m8, "enum", json_array(a9));
    push_member(&mut m2, "status", json_object(m8));
    let mut m10: Vec<(String, JsonValue)> = Vec::new();
    push_member(&mut m10, "type", json_text("string"));
    push_member(&mut m2, "tool", json_object(m10));
    push_member(&mut m1, "properties", json_object(m2));
    let mut a11: Vec<JsonValue> = Vec::new();
    push_item(&mut a11, json_text("tool"));
    push_item(&mut a11, json_text("status"));
    push_item(&mut a11, json_text("input"));
    push_item(&mut a11, json_text("driver_class"));
    push_item(&mut a11, json_text("evidence_id"));
    push_item(&mut a11, json_text("evidence_type"));
    push_member(&mut m1, "required", json_array(a11));
    push_member(&mut m1, "type", json_text("object"));
    json_object(m1)
}

/// The input schema of `report_supervisor`.
pub open spec fn report_supervisor_input_schema() -> JsonModel {
    JsonModel::Object(Seq::<(Seq<char>, JsonModel)>::empty().push(("additionalProperties"@, JsonModel::Bool(false))).push(("properties"@, JsonModel::Object(Seq::<(Seq<char>, JsonModel)>::empty().push(("artifact_refs"@, JsonModel::Object(Seq::<(Seq<char>, JsonModel)>::empty().push(("items"@, JsonModel::Object(Seq::<(Seq<char>, JsonModel)>::empty().push(("type"@, JsonModel::Text("string"@)))))).push(("type"@, JsonModel::Text("array"@)))))).push(("evidence_refs"@, JsonModel::Object(Seq::<(Seq<char>, JsonModel)>::empty().push(("items"@, JsonModel::Object(Seq::<(Seq<char>, JsonModel)>::empty().push(("type"@, JsonModel::Text("string"@)))))).push(("type"@, JsonModel::Text("array"@)))))).push(("message"@, JsonModel::Object(Seq::<(Seq<char>, JsonModel)>::empty().push(("type"@, JsonModel::Text("string"@)))))).push(("message_type"@, JsonModel::Object(Seq::<(Seq<char>, JsonModel)>::empty().push(("enum"@, JsonModel::Array(Seq::<JsonModel>::empty().push(JsonModel::Text("StatusUpdate"@)).push(JsonModel::Text("BlockerReport"@)).push(JsonModel::Text("RiskReport"@)).push(JsonModel::Text("CompletionReport"@))))))))))).push(("required"@, JsonModel::Array(Seq::<JsonModel>::empty().push(JsonModel::Text("message"@))))).push(("type"@, JsonModel::Text("object"@))))
}

fn report_supervisor_input_schema_value() -> (r: JsonValue)
    ensures
        json_model(r) == report_supervisor_input_schema(),
{
    let mut m1: Vec<(String, JsonValue)> = Vec::new();
    push_member(&mut m1, "additionalProperties", json_bool(false));
    let mut m2: Vec<(String, JsonValue)> = Vec::new();
    let mut m3: Vec<(String, JsonValue)> = Vec::new();
    let mut m4: Vec<(String, JsonValue)> = Vec::new();
    push_member(&mut m4, "type", json_text("string"));
    push_member(&mut m3, "items", json_object(m4));
    push_member(&mut m3, "type", json_text("array"));
    push_member(&mut m2, "artifact_refs", json_object(m3));
    let mut m5: Vec<(String, JsonValue)> = Vec::new();
    let mut m6: Vec<(String, JsonValue)> = Vec::new();
    push_member(&mut m6, "type", json_text("string"));
    push_member(&mut m5, "items", json_object(m6));
    push_member(&mut m5, "type", json_text("array"));
    push_member(&mut m2, "evidence_refs", json_object(m5));
    let mut m7: Vec<(String, JsonValue)> = Vec::new();
    push_member(&mut m7, "type", json_text("string"));
    push_member(&mut m2, "message", json_object(m7));
    let mut m8: Vec<(String, JsonValue)> = Vec::new();
    let mut a9: Vec<JsonValue> = Vec::new();
    push_item(&mut a9, json_text("StatusUpdate"));
    push_item(&mut a9, json_text("BlockerReport"));
    push_item(&mut a9, json_text("RiskReport"));
    push_item(&mut a9, json_text("CompletionReport"));
    push_member(&mut m8, "enum", json_array(a9));
    push_member(&mut m2, "message_type", json_object(m8));
    push_member(&mut m1, "properties", json_object(m2));
    let mut a10: Vec<JsonValue> = Vec::new();
    push_item(&mut a10, json_text("message"));
    push_member(&mut m1, "required", json_array(a10));
    push_member(&mut m1, "type", json_text("object"));
    json_object(m1)
}

/// The output schema of `report_supervisor`.
pub open spec fn report_supervisor_output_schema() -> JsonModel {
    JsonModel::Object(Seq::<(Seq<char>, JsonModel)>::empty().push(("additionalProperties"@, JsonModel::Bool(true))).push(("properties"@, JsonModel::Object(Seq::<(Seq<char>, JsonModel)>::empty().push(("delivery_status"@, JsonModel::Object(Seq::<(Seq<char>, JsonModel)>::empty().push(("type"@, JsonModel::Text("string"@)))))).push(("driver_class"@, JsonModel::Object(Seq::<(Seq<char>, JsonModel)>::empty().push(("type"@, JsonModel::Text("string"@)))))).push(("input"@, JsonModel::Object(Seq::<(Seq<char>, JsonModel)>::empty().push(("type"@, JsonModel::Text("object"@)))))).push(("message_id"@, JsonModel::Object(Seq::<(Seq<char>, JsonModel)>::empty().push(("type"@, JsonModel::Text("string"@)))))).push(("status"@, JsonModel::Object(Seq::<(Seq<char>, JsonModel)>::empty().push(("enum"@, JsonModel::Array(Seq::<JsonModel>::empty().push(JsonModel::Text("ok"@)))))))).push(("tool"@, JsonModel::Object(Seq::<(Seq<char>, JsonModel)>::empty().push(("type"@, JsonModel::Text("string"@))))))))).push(("required"@, JsonModel::Array(Seq::<JsonModel>::empty().push(JsonModel::Text("tool"@)).push(JsonModel::Text("status"@)).push(JsonModel::Text("input"@)).push(JsonModel::Text("driver_class"@)).push(JsonModel::Text("message_id"@)).push(JsonModel::Text("delivery_status"@))))).push(("type"@, JsonModel::Text("object"@))))
}

fn report_supervisor_output_schema_value() -> (r: JsonValue)
    ensures
        json_model(r) == report_supervisor_output_schema(),
{
    let mut m1: Vec<(String, JsonValue)> = Vec::new();
    push_member(&mut m1, "additionalProperties", json_bool(true));
    let mut m2: Vec<(String, JsonValue)> = Vec::new();
    let mut m3: Vec<(String, JsonValue)> = Vec::new();
    push_member(&mut m3, "type", json_text("string"));
    push_member(&mut m2, "delivery_status", json_object(m3));
    let mut m4: Vec<(String, JsonValue)> = Vec::new();
    push_member(&mut m4, "type", json_text("string"));
    push_member(&mut m2, "driver_class", json_object(m4));
    let mut m5: Vec<(String, JsonValue)> = Vec::new();
    push_member(&mut m5, "type", json_text("object"));
    push_member(&mut m2, "input", json_object(m5));
    let mut m6: Vec<(String, JsonValue)> = Vec::new();
    push_member(&mut m6, "type", json_text("string"));
    push_member(&mut m2, "message_id", json_object(m6));
    let mut m7: Vec<(String, JsonValue)> = Vec::new();
    let mut a8: Vec<JsonValue> = Vec::new();
    push_item(&mut a8, json_text("ok"));
    push_member(&mut m7, "enum", json_array(a8));
    push_member(&mut m2, "status", json_object(m7));
    let mut m9: Vec<(String, JsonValue)> = Vec::new();
    push_member(&mut m9, "type", json_text("string"));
    push_member(&mut m2, "tool", json_object(m9));
    push_member(&mut m1, "properties", json_object(m2));
    let mut a10: Vec<JsonValue> = Vec::new();
    push_item(&mut a10, json_text("tool"));
    push_item(&mut a10, json_text("status"));
    push_item(&mut a10, json_text("input"));
    push_item(&mut a10, json_text("driver_class"));
    push_item(&mut a10, json_text("message_id"));
    push_item(&mut a10, json_text("delivery_status"));
    push_member(&mut m1, "required", json_array(a10));
    push_member(&mut m1, "type", json_text("object"));
    json_object(m1)
}

/// The input schema of `post_blackboard`.
pub open spec fn post_blackboard_input_schema() -> JsonModel {
    JsonModel::Object(Seq::<(Seq<char>, JsonModel)>::empty().push(("additionalProperties"@, JsonModel::Bool(false))).push(("properties"@, JsonModel::Object(Seq::<(Seq<char>, JsonModel)>::empty().push(("channel_id"@, JsonModel::Object(Seq::<(Seq<char>, JsonModel)>::empty().push(("type"@, JsonModel::Text("string"@)))))).push(("confidence"@, JsonModel::Object(Seq::<(Seq<char>, JsonModel)>::empty().push(("type"@, JsonModel::Text("number"@)))))).push(("content"@, JsonModel::Object(Seq::<(Seq<char>, JsonModel)>::empty().push(("type"@, JsonModel::Text("object"@)))))).push(("scope"@, JsonModel::Object(Seq::<(Seq<char>, JsonModel)>::empty().push(("enum"@, JsonModel::Array(Seq::<JsonModel>::empty().push(JsonModel::Text("task"@)).push(JsonModel::Text("goal"@)).push(JsonModel::Text("global"@)))))))).push(("section"@, JsonModel::Object(Seq::<(Seq<char>, JsonModel)>::empty().push(("enum"@, JsonModel::Array(Seq::<JsonModel>::empty().push(JsonModel::Text("known_fact"@)).push(JsonModel::Text("hypothesis"@)).push(JsonModel::Text("risk"@)).push(JsonModel::Text("open_question"@)).push(JsonModel::Text("test_result"@)).push(JsonModel::Text("review_result"@)))))))).push(("source_evidence_ids"@, JsonModel::Object(Seq::<(Seq<char>, JsonModel)>::empty().push(("items"@, JsonModel::Object(Seq::<(Seq<char>, JsonModel)>::empty().push(("type"@, JsonModel::Text("string"@)))))).push(("type"@, JsonModel::Text("array"@))))))))).push(("required"@, JsonModel::Array(Seq::<JsonModel>::empty().push(JsonModel::Text("channel_id"@)).push(JsonModel::Text("section"@)).push(JsonModel::Text("content"@))))).push(("type"@, JsonModel::Text("object"@))))
}

fn post_blackboard_input_schema_value() -> (r: JsonValue)
    ensures
        json_model(r) == post_blackboard_input_schema(),
{
    let mut m1: Vec<(String, JsonValue)> = Vec::new();
    push_member(&mut m1, "additionalProperties", json_bool(false));
    let mut m2: Vec<(String, JsonValue)> = Vec::new();
    let mut m3: Vec<(String, JsonValue)> = Vec::new();
    push_member(&mut m3, "type", json_text("string"));
    push_member(&mut m2, "channel_id", json_object(m3));
    let mut m4: Vec<(String, JsonValue)> = Vec::new();
    push_member(&mut m4, "type", json_text("number"));
    push_member(&mut m2, "confidence", json_object(m4));
    let mut m5: Vec<(String, JsonValue)> = Vec::new();
    push_member(&mut m5, "type", json_text("object"));
    push_member(&mut m2, "content", json_object(m5));
    let mut m6: Vec<(String, JsonValue)> = Vec::new();
    let mut a7: Vec<JsonValue> = Vec::new();
    push_item(&mut a7, json_text("task"));
    push_item(&mut a7, json_text("goal"));
    push_item(&mut a7, json_text("global"));
    push_member(&mut m6, "enum", json_array(a7));
    push_member(&mut m2, "scope", json_object(m6));
    let mut m8: Vec<(String, JsonValue)> = Vec::new();
    let mut a9: Vec<JsonValue> = Vec::new();
    push_item(&mut a9, json_text("known_fact"));
    push_item(&mut a9, json_text("hypothesis"));
    push_item(&mut a9, json_text("risk"));
    push_item(&mut a9, json_text("open_question"));
    push_item(&mut a9, json_text("test_result"));
    push_item(&mut a9, json_text("review_result"));
    push_member(&mut m8, "enum", json_array(a9));
    push_member(&mut m2, "section", json_object(m8));
    let mut m10: Vec<(String, JsonValue)> = Vec::new();
    let mut m11: Vec<(String, JsonValue)> = Vec::new();
    push_member(&mut m11, "type", json_text("string"));
    push_member(&mut m10, "items", json_object(m11));
    push_member(&mut m10, "type", json_text("array"));
    push_member(&mut m2, "source_evidence_ids", json_object(m10));
    push_member(&mut m1, "properties", json_object(m2));
    let mut a12: Vec<JsonValue> = Vec::new();
    push_item(&mut a12, json_text("channel_id"));
    push_item(&mut a12, json_text("section"));
    push_item(&mut a12, json_text("content"));
    push_member(&mut m1, "required", json_array(a12));
    push_member(&mut m1, "type", json_text("object"));
    json_object(m1)
}

/// The output schema of `post_blackboard`.
pub open spec fn post_blackboard_output_schema() -> JsonModel {
    JsonModel::Object(Seq::<(Seq<char>, JsonModel)>::empty().push(("additionalProperties"@, JsonModel::Bool(true))).push(("properties"@, JsonModel::Object(Seq::<(Seq<char>, JsonModel)>::empty().push(("driver_class"@, JsonModel::Object(Seq::<(Seq<char>, JsonModel)>::empty().push(("type"@, JsonModel::Text("string"@)))))).push(("entry_id"@, JsonModel::Object(Seq::<(Seq<char>, JsonModel)>::empty().push(("type"@, JsonModel::Text("string"@)))))).push(("input"@, JsonModel::Object(Seq::<(Seq<char>, JsonModel)>::empty().push(("type"@, JsonModel::Text("object"@)))))).push(("message_id"@, JsonModel::Object(Seq::<(Seq<char>, JsonModel)>::empty().push(("type"@, JsonModel::Text("string"@)))))).push(("section"@, JsonModel::Object(Seq::<(Seq<char>, JsonModel)>::empty().push(("type"@, JsonModel::Text("string"@)))))).push(("status"@, JsonModel::Object(Seq::<(Seq<char>, JsonModel)>::empty().push(("enum"@, JsonModel::Array(Seq::<JsonModel>::empty().push(JsonModel::Text("ok"@)))))))).push(("tool"@, JsonModel::Object(Seq::<(Seq<char>, JsonModel)>::empty().push(("type"@, JsonModel::Text("string"@))))))))).push(("required"@, JsonModel::Array(Seq::<JsonModel>::empty().push(JsonModel::Text("tool"@)).push(JsonModel::Text("status"@)).push(JsonModel::Text("input"@)).push(JsonModel::Text("driver_class"@)).push(JsonModel::Text("entry_id"@)).push(JsonModel::Text("section"@))))).push(("type"@, JsonModel::Text("object"@))))
}

fn post_blackboard_output_schema_value() -> (r: JsonValue)
    ensures
        json_model(r) == post_blackboard_output_schema(),
{
    let mut m1: Vec<(String, JsonValue)> = Vec::new();
    push_member(&mut m1, "additionalProperties", json_bool(true));
    let mut m2: Vec<(String, JsonValue)> = Vec::new();
    let mut m3: Vec<(String, JsonValue)> = Vec::new();
    push_member(&mut m3, "type", json_text("string"));
    push_member(&mut m2, "driver_class", json_object(m3));
    let mut m4: Vec<(String, JsonValue)> = Vec::new();
    push_member(&mut m4, "type", json_text("string"));
    push_member(&mut m2, "entry_id", json_object(m4));
    let mut m5: Vec<(String, JsonValue)> = Vec::new();
    push_member(&mut m5, "type", json_text("object"));
    push_member(&mut m2, "input", json_object(m5));
    let mut m6: Vec<(String, JsonValue)> = Vec::new();
    push_member(&mut m6, "type", json_text("string"));
    push_member(&mut m2, "message_id", json_object(m6));
    let mut m7: Vec<(String, JsonValue)> = Vec::new();
    push_member(&mut m7, "type", json_text("string"));
    push_member(&mut m2, "section", json_object(m7));
    let mut m8: Vec<(String, JsonValue)> = Vec::new();
    let mut a9: Vec<JsonValue> = Vec::new();
    push_item(&mut a9, json_text("ok"));
    push_member(&mut m8, "enum", json_array(a9));
    push_member(&mut m2, "status", json_object(m8));
    let mut m10: Vec<(String, JsonValue)> = Vec::new();
    push_member(&mut m10, "type", json_text("string"));
    push_member(&mut m2, "tool", json_object(m10));
    push_member(&mut m1, "properties", json_object(m2));
    let mut a11: Vec<JsonValue> = Vec::new();
    push_item(&mut a11, json_text("tool"));
    push_item(&mut a11, json_text("status"));
    push_item(&mut a11, json_text("input"));
    push_item(&mut a11, json_text("driver_class"));
    push_item(&mut a11, json_text("entry_id"));
    push_item(&mut a11, json_text("section"));
    push_member(&mut m1, "required", json_array(a11));
    push_member(&mut m1, "type", json_text("object"));
    json_object(m1)
}

/// The input schema of `ask_human`.
pub open spec fn ask_human_input_schema() -> JsonModel {
    JsonModel::Object(Seq::<(Seq<char>, JsonModel)>::empty().push(("additionalProperties"@, JsonModel::Bool(false))).push(("properties"@, JsonModel::Object(Seq::<(Seq<char>, JsonModel)>::empty().push(("artifact_refs"@, JsonModel::Object(Seq::<(Seq<char>, JsonModel)>::empty().push(("items"@, JsonModel::Object(Seq::<(Seq<char>, JsonModel)>::empty().push(("type"@, JsonModel::Text("string"@)))))).push(("type"@, JsonModel::Text("array"@)))))).push(("context"@, JsonModel::Object(Seq::<(Seq<char>, JsonModel)>::empty().push(("type"@, JsonModel::Text("object"@)))))).push(("evidence_refs"@, JsonModel::Object(Seq::<(Seq<char>, JsonModel)>::empty().push(("items"@, JsonModel::Object(Seq::<(Seq<char>, JsonModel)>::empty().push(("type"@, JsonModel::Text("string"@)))))).push(("type"@, JsonModel::Text("array"@)))))).push(("message_type"@, JsonModel::Object(Seq::<(Seq<char>, JsonModel)>::empty().push(("enum"@, JsonModel::Array(Seq::<JsonModel>::empty().push(JsonModel::Text("HumanQuestion"@)).push(JsonModel::Text("HumanEscalation"@)).push(JsonModel::Text("ApprovalRequest"@)))))))).push(("question"@, JsonModel::Object(Seq::<(Seq<char>, JsonModel)>::empty().push(("type"@, JsonModel::Text("string"@))))))))).push(("required"@, JsonModel::Array(Seq::<JsonModel>::empty().push(JsonModel::Text("question"@))))).push(("type"@, JsonModel::Text("object"@))))
}

fn ask_human_input_schema_value() -> (r: JsonValue)
    ensures
        json_model(r) == ask_human_input_schema(),
{
    let mut m1: Vec<(String, JsonValue)> = Vec::new();
    push_member(&mut m1, "additionalProperties", json_bool(false));
    let mut m2: Vec<(String, JsonValue)> = Vec::new();
    let mut m3: Vec<(String, JsonValue)> = Vec::new();
    let mut m4: Vec<(String, JsonValue)> = Vec::new();
    push_member(&mut m4, "type", json_text("string"));
    push_member(&mut m3, "items", json_object(m4));
    push_member(&mut m3, "type", json_text("array"));
    push_member(&mut m2, "artifact_refs", json_object(m3));
    let mut m5: Vec<(String, JsonValue)> = Vec::new();
    push_member(&mut m5, "type", json_text("object"));
    push_member(&mut m2, "context", json_object(m5));
    let mut m6: Vec<(String, JsonValue)> = Vec::new();
    let mut m7: Vec<(String, JsonValue)> = Vec::new();
    push_member(&mut m7, "type", json_text("string"));
    push_member(&mut m6, "items", json_object(m7));
    push_member(&mut m6, "type", json_text("array"));
    push_member(&mut m2, "evidence_refs", json_object(m6));
    let mut m8: Vec<(String, JsonValue)> = Vec::new();
    let mut a9: Vec<JsonValue> = Vec::new();
    push_item(&mut a9, json_text("HumanQuestion"));
    push_item(&mut a9, json_text("HumanEscalation"));
    push_item(&mut a9, json_text("ApprovalRequest"));
    push_member(&mut m8, "enum", json_array(a9));
    push_member(&mut m2, "message_type", json_object(m8));
    let mut m10: Vec<(String, JsonValue)> = Vec::new();
    push_member(&mut m10, "type", json_text("string"));
    push_member(&mut m2, "question", json_object(m10));
    push_member(&mut m1, "properties", json_object(m2));
    let mut a11: Vec<JsonValue> = Vec::new();
    push_item(&mut a11, json_text("question"));
    push_member(&mut m1, "required", json_array(a11));
    push_member(&mut m1, "type", json_text("object"));
    json_object(m1)
}

/// The output schema of `ask_human`.
pub open spec fn ask_human_output_schema() -> JsonModel {
    JsonModel::Object(Seq::<(Seq<char>, JsonModel)>::empty().push(("additionalProperties"@, JsonModel::Bool(true))).push(("properties"@, JsonModel::Object(Seq::<(Seq<char>, JsonModel)>::empty().push(("delivery_status"@, JsonModel::Object(Seq::<(Seq<char>, JsonModel)>::empty().push(("type"@, JsonModel::Text("string"@)))))).push(("driver_class"@, JsonModel::Object(Seq::<(Seq<char>, JsonModel)>::empty().push(("type"@, JsonModel::Text("string"@)))))).push(("input"@, JsonModel::Object(Seq::<(Seq<char>, JsonModel)>::empty().push(("type"@, JsonModel::Text("object"@)))))).push(("message_id"@, JsonModel::Object(Seq::<(Seq<char>, JsonModel)>::empty().push(("type"@, JsonModel::Text("string"@)))))).push(("status"@, JsonModel::Object(Seq::<(Seq<char>, JsonModel)>::empty().push(("enum"@, JsonModel::Array(Seq::<JsonModel>::empty().push(JsonModel::Text("ok"@)))))))).push(("tool"@, JsonModel::Object(Seq::<(Seq<char>, JsonModel)>::empty().push(("type"@, JsonModel::Text("string"@))))))))).push(("required"@, JsonModel::Array(Seq::<JsonModel>::empty().push(JsonModel::Text("tool"@)).push(JsonModel::Text("status"@)).push(JsonModel::Text("input"@)).push(JsonModel::Text("driver_class"@)).push(JsonModel::Text("message_id"@)).push(JsonModel::Text("delivery_status"@))))).push(("type"@, JsonModel::Text("object"@))))
}

fn ask_human_output_schema_value() -> (r: JsonValue)
    ensures
        json_model(r) == ask_human_output_schema(),
{
    let mut m1: Vec<(String, JsonValue)> = Vec::new();
    push_member(&mut m1, "additionalProperties", json_bool(true));
    let mut m2: Vec<(String, JsonValue)> = Vec::new();
    let mut m3: Vec<(String, JsonValue)> = Vec::new();
    push_member(&mut m3, "type", json_text("string"));
    push_member(&mut m2, "delivery_status", json_object(m3));
    let mut m4: Vec<(String, JsonValue)> = Vec::new();
    push_member(&mut m4, "type", json_text("string"));
    push_member(&mut m2, "driver_class", json_object(m4));
    let mut m5: Vec<(String, JsonValue)> = Vec::new();
    push_member(&mut m5, "type", json_text("object"));
    push_member(&mut m2, "input", json_object(m5));
    let mut m6: Vec<(String, JsonValue)> = Vec::new();
    push_member(&mut m6, "type", json_text("string"));
    push_member(&mut m2, "message_id", json_object(m6));
    let mut m7: Vec<(String, JsonValue)> = Vec::new();
    let mut a8: Vec<JsonValue> = Vec::new();
    push_item(&mut a8, json_text("ok"));
    push_member(&mut m7, "enum", json_array(a8));
    push_member(&mut m2, "status", json_object(m7));
    let mut m9: Vec<(String, JsonValue)> = Vec::new();
    push_member(&mut m9, "type", json_text("string"));
    push_member(&mut m2, "tool", json_object(m9));
    push_member(&mut m1, "properties", json_object(m2));
    let mut a10: Vec<JsonValue> = Vec::new();
    push_item(&mut a10, json_text("tool"));
    push_item(&mut a10, json_text("status"));
    push_item(&mut a10, json_text("input"));
    push_item(&mut a10, json_text("driver_class"));
    push_item(&mut a10, json_text("message_id"));
    push_item(&mut a10, json_text("delivery_status"));
    push_member(&mut m1, "required", json_array(a10));
    push_member(&mut m1, "type", json_text("object"));
    json_object(m1)
}

/// The input schema of `request_permissions`.
pub open spec fn request_permissions_input_schema() -> JsonModel {
    JsonModel::Object(Seq::<(Seq<char>, JsonModel)>::empty().push(("additionalProperties"@, JsonModel::Bool(false))).push(("properties"@, JsonModel::Object(Seq::<(Seq<char>, JsonModel)>::empty().push(("permissions"@, JsonModel::Object(Seq::<(Seq<char>, JsonModel)>::empty().push(("additionalProperties"@, JsonModel::Bool(false))).push(("properties"@, JsonModel::Object(Seq::<(Seq<char>, JsonModel)>::empty().push(("allowed_syscalls"@, JsonModel::Object(Seq::<(Seq<char>, JsonModel)>::empty().push(("items"@, JsonModel::Object(Seq::<(Seq<char>, JsonModel)>::empty().push(("type"@, JsonModel::Text("string"@)))))).push(("type"@, JsonModel::Text("array"@)))))).push(("allowed_tool_driver_classes"@, JsonModel::Object(Seq::<(Seq<char>, JsonModel)>::empty().push(("items"@, JsonModel::Object(Seq::<(Seq<char>, JsonModel)>::empty().push(("enum"@, JsonModel::Array(Seq::<JsonModel>::empty().push(JsonModel::Text("kernel_builtin"@)).push(JsonModel::Text("filesystem"@)).push(JsonModel::Text("shell"@)).push(JsonModel::Text("git"@)).push(JsonModel::Text("mcp"@)).push(JsonModel::Text("browser"@)).push(JsonModel::Text("external_api"@)))))))).push(("type"@, JsonModel::Text("array"@)))))).push(("allowed_tool_names"@, JsonModel::Object(Seq::<(Seq<char>, JsonModel)>::empty().push(("items"@, JsonModel::Object(Seq::<(Seq<char>, JsonModel)>::empty().push(("type"@, JsonModel::Text("string"@)))))).push(("type"@, JsonModel::Text("array"@)))))).push(("approval_required_above"@, JsonModel::Object(Seq::<(Seq<char>, JsonModel)>::empty().push(("maximum"@, JsonModel::Number(JsonNumber { mantissa: 6, scale: 0 }))).push(("minimum"@, JsonModel::Number(JsonNumber { mantissa: 0, scale: 0 }))).push(("type"@, JsonModel::Text("integer"@)))))).push(("max_risk_level"@, JsonModel::Object(Seq::<(Seq<char>, JsonModel)>::empty().push(("maximum"@, JsonModel::Number(JsonNumber { mantissa: 6, scale: 0 }))).push(("minimum"@, JsonModel::Number(JsonNumber { mantissa: 0, scale: 0 }))).push(("type"@, JsonModel::Text("integer"@)))))).push(("requires_evidence_for"@, JsonModel::Object(Seq::<(Seq<char>, JsonModel)>::empty().push(("items"@, JsonModel::Object(Seq::<(Seq<char>, JsonModel)>::empty().push(("type"@, JsonModel::Text("string"@)))))).push(("type"@, JsonModel::Text("array"@)))))).push(("resource_scopes"@, JsonModel::Object(Seq::<(Seq<char>, JsonModel)>::empty().push(("items"@, JsonModel::Object(Seq::<(Seq<char>, JsonModel)>::empty().push(("type"@, JsonModel::Text("string"@)))))).push(("type"@, JsonModel::Text("array"@))))))))).push(("required"@, JsonModel::Array(Seq::<JsonModel>::empty().push(JsonModel::Text("max_risk_level"@)).push(JsonModel::Text("allowed_syscalls"@)).push(JsonModel::Text("resource_scopes"@)).push(JsonModel::Text("allowed_tool_names"@)).push(JsonModel::Text("allowed_tool_driver_classes"@)).push(JsonModel::Text("approval_required_above"@)).push(JsonModel::Text("requires_evidence_for"@))))).push(("type"@, JsonModel::Text("object"@)))))).push(("reason"@, JsonModel::Object(Seq::<(Seq<char>, JsonModel)>::empty().push(("type"@, JsonModel::Text("string"@)))))).push(("scope"@, JsonModel::Object(Seq::<(Seq<char>, JsonModel)>::empty().push(("enum"@, JsonModel::Array(Seq::<JsonModel>::empty().push(JsonModel::Text("turn"@)).push(JsonModel::Text("session"@))))))))))).push(("required"@, JsonModel::Array(Seq::<JsonModel>::empty().push(JsonModel::Text("reason"@)).push(JsonModel::Text("permissions"@)).push(JsonModel::Text("scope"@))))).push(("type"@, JsonModel::Text("object"@))))
}

fn request_permissions_input_schema_value() -> (r: JsonValue)
    ensures
        json_model(r) == request_permissions_input_schema(),
{
    let mut m1: Vec<(String, JsonValue)> = Vec::new();
    push_member(&mut m1, "additionalProperties", json_bool(false));
    let mut m2: Vec<(String, JsonValue)> = Vec::new();
    let mut m3: Vec<(String, JsonValue)> = Vec::new();
    push_member(&mut m3, "additionalProperties", json_bool(false));
    let mut m4: Vec<(String, JsonValue)> = Vec::new();
    let mut m5: Vec<(String, JsonValue)> = Vec::new();
    let mut m6: Vec<(String, JsonValue)> = Vec::new();
    push_member(&mut m6, "type", json_text("string"));
    push_member(&mut m5, "items", json_object(m6));
    push_member(&mut m5, "type", json_text("array"));
    push_member(&mut m4, "allowed_syscalls", json_object(m5));
    let mut m7: Vec<(String, JsonValue)> = Vec::new();
    let mut m8: Vec<(String, JsonValue)> = Vec::new();
    let mut a9: Vec<JsonValue> = Vec::new();
    push_item(&mut a9, json_text("kernel_builtin"));
    push_item(&mut a9, json_text("filesystem"));
    push_item(&mut a9, json_text("shell"));
    push_item(&mut a9, json_text("git"));
    push_item(&mut a9, json_text("mcp"));
    push_item(&mut a9, json_text("browser"));
    push_item(&mut a9, json_text("external_api"));
    push_member(&mut m8, "enum", json_array(a9));
    push_member(&mut m7, "items", json_object(m8));
    push_member(&mut m7, "type", json_text("array"));
    push_member(&mut m4, "allowed_tool_driver_classes", json_object(m7));
    let mut m10: Vec<(String, JsonValue)> = Vec::new();
    let mut m11: Vec<(String, JsonValue)> = Vec::new();
    push_member(&mut m11, "type", json_text("string"));
    push_member(&mut m10, "items", json_object(m11));
    push_member(&mut m10, "type", json_text("array"));
    push_member(&mut m4, "allowed_tool_names", json_object(m10));
    let mut m12: Vec<(String, JsonValue)> = Vec::new();
    push_member(&mut m12, "maximum", json_int(6));
    push_member(&mut m12, "minimum", json_int(0));
    push_member(&mut m12, "type", json_text("integer"));
    push_member(&mut m4, "approval_required_above", json_object(m12));
    let mut m13: Vec<(String, JsonValue)> = Vec::new();
    push_member(&mut m13, "maximum", json_int(6));
    push_member(&mut m13, "minimum", json_int(0));
    push_member(&mut m13, "type", json_text("integer"));
    push_member(&mut m4, "max_risk_level", json_object(m13));
    let mut m14: Vec<(String, JsonValue)> = Vec::new();
    let mut m15: Vec<(String, JsonValue)> = Vec::new();
    push_member(&mut m15, "type", json_text("string"));
    push_member(&mut m14, "items", json_object(m15));
    push_member(&mut m14, "type", json_text("array"));
    push_member(&mut m4, "requires_evidence_for", json_object(m14));
    let mut m16: Vec<(String, JsonValue)> = Vec::new();
    let mut m17: Vec<(String, JsonValue)> = Vec::new();
    push_member(&mut m17, "type", json_text("string"));
    push_member(&mut m16, "items", json_object(m17));
    push_member(&mut m16, "type", json_text("array"));
    push_member(&mut m4, "resource_scopes", json_object(m16));
    push_member(&mut m3, "properties", json_object(m4));
    let mut a18: Vec<JsonValue> = Vec::new();
    push_item(&mut a18, json_text("max_risk_level"));
    push_item(&mut a18, json_text("allowed_syscalls"));
    push_item(&mut a18, json_text("resource_scopes"));
    push_item(&mut a18, json_text("allowed_tool_names"));
    push_item(&mut a18, json_text("allowed_tool_driver_classes"));
    push_item(&mut a18, json_text("approval_required_above"));
    push_item(&mut a18, json_text("requires_evidence_for"));
    push_member(&mut m3, "required", json_array(a18));
    push_member(&mut m3, "type", json_text("object"));
    push_member(&mut m2, "permissions", json_object(m3));
    let mut m19: Vec<(String, JsonValue)> = Vec::new();
    push_member(&mut m19, "type", json_text("string"));
    push_member(&mut m2, "reason", json_object(m19));
    let mut m20: Vec<(String, JsonValue)> = Vec::new();
    let mut a21: Vec<JsonValue> = Vec::new();
    push_item(&mut a21, json_text("turn"));
    push_item(&mut a21, json_text("session"));
    push_member(&mut m20, "enum", json_array(a21));
    push_member(&mut m2, "scope", json_object(m20));
    push_member(&mut m1, "properties", json_object(m2));
    let mut a22: Vec<JsonValue> = Vec::new();
    push_item(&mut a22, json_text("reason"));
    push_item(&mut a22, json_text("permissions"));
    push_item(&mut a22, json_text("scope"));
    push_member(&mut m1, "required", json_array(a22));
    push_member(&mut m1, "type", json_text("object"));
    json_object(m1)
}

/// The output schema of `request_permissions`.
pub open spec fn request_permissions_output_schema() -> JsonModel {
    JsonModel::Object(Seq::<(Seq<char>, JsonModel)>::empty().push(("additionalProperties"@, JsonModel::Bool(false))).push(("properties"@, JsonModel::Object(Seq::<(Seq<char>, JsonModel)>::empty().push(("approver_agent_id"@, JsonModel::Object(Seq::<(Seq<char>, JsonModel)>::empty().push(("type"@, JsonModel::Array(Seq::<JsonModel>::empty().push(JsonModel::Text("string"@)).push(JsonModel::Text("null"@)))))))).push(("approver_thread_id"@, JsonModel::Object(Seq::<(Seq<char>, JsonModel)>::empty().push(("type"@, JsonModel::Array(Seq::<JsonModel>::empty().push(JsonModel::Text("string"@)).push(JsonModel::Text("null"@)))))))).push(("driver_class"@, JsonModel::Object(Seq::<(Seq<char>, JsonModel)>::empty().push(("type"@, JsonModel::Text("string"@)))))).push(("input"@, JsonModel::Object(Seq::<(Seq<char>, JsonModel)>::empty().push(("type"@, JsonModel::Text("object"@)))))).push(("permission_request_id"@, JsonModel::Object(Seq::<(Seq<char>, JsonModel)>::empty().push(("type"@, JsonModel::Text("string"@)))))).push(("request_status"@, JsonModel::Object(Seq::<(Seq<char>, JsonModel)>::empty().push(("enum"@, JsonModel::Array(Seq::<JsonModel>::empty().push(JsonModel::Text("Pending"@)).push(JsonModel::Text("Approved"@)).push(JsonModel::Text("Denied"@)).push(JsonModel::Text("Cancelled"@)))))))).push(("scope"@, JsonModel::Object(Seq::<(Seq<char>, JsonModel)>::empty().push(("type"@, JsonModel::Text("string"@)))))).push(("status"@, JsonModel::Object(Seq::<(Seq<char>, JsonModel)>::empty().push(("enum"@, JsonModel::Array(Seq::<JsonModel>::empty().push(JsonModel::Text("pending"@)))))))).push(("tool"@, JsonModel::Object(Seq::<(Seq<char>, JsonModel)>::empty().push(("type"@, JsonModel::Text("string"@))))))))).push(("required"@, JsonModel::Array(Seq::<JsonModel>::empty().push(JsonModel::Text("tool"@)).push(JsonModel::Text("status"@)).push(JsonModel::Text("input"@)).push(JsonModel::Text("driver_class"@)).push(JsonModel::Text("permission_request_id"@)).push(JsonModel::Text("request_status"@)).push(JsonModel::Text("scope"@))))).push(("type"@, JsonModel::Text("object"@))))
}

fn request_permissions_output_schema_value() -> (r: JsonValue)
    ensures
        json_model(r) == request_permissions_output_schema(),
{
    let mut m1: Vec<(String, JsonValue)> = Vec::new();
    push_member(&mut m1, "additionalProperties", json_bool(false));
    let mut m2: Vec<(String, JsonValue)> = Vec::new();
    let mut m3: Vec<(String, JsonValue)> = Vec::new();
    let mut a4: Vec<JsonValue> = Vec::new();
    push_item(&mut a4, json_text("string"));
    push_item(&mut a4, json_text("null"));
    push_member(&mut m3, "type", json_array(a4));
    push_member(&mut m2, "approver_agent_id", json_object(m3));
    let mut m5: Vec<(String, JsonValue)> = Vec::new();
    let mut a6: Vec<JsonValue> = Vec::new();
    push_item(&mut a6, json_text("string"));
    push_item(&mut a6, json_text("null"));
    push_member(&mut m5, "type", json_array(a6));
    push_member(&mut m2, "approver_thread_id", json_object(m5));
    let mut m7: Vec<(String, JsonValue)> = Vec::new();
    push_member(&mut m7, "type", json_text("string"));
    push_member(&mut m2, "driver_class", json_object(m7));
    let mut m8: Vec<(String, JsonValue)> = Vec::new();
    push_member(&mut m8, "type", json_text("object"));
    push_member(&mut m2, "input", json_object(m8));
    let mut m9: Vec<(String, JsonValue)> = Vec::new();
    push_member(&mut m9, "type", json_text("string"));
    push_member(&mut m2, "permission_request_id", json_object(m9));
    let mut m10: Vec<(String, JsonValue)> = Vec::new();
    let mut a11: Vec<JsonValue> = Vec::new();
    push_item(&mut a11, json_text("Pending"));
    push_item(&mut a11, json_text("Approved"));
    push_item(&mut a11, json_text("Denied"));
    push_item(&mut a11, json_text("Cancelled"));
    push_member(&mut m10, "enum", json_array(a11));
    push_member(&mut m2, "request_status", json_object(m10));
    let mut m12: Vec<(String, JsonValue)> = Vec::new();
    push_member(&mut m12, "type", json_text("string"));
    push_member(&mut m2, "scope", json_object(m12));
    let mut m13: Vec<(String, JsonValue)> = Vec::new();
    let mut a14: Vec<JsonValue> = Vec::new();
    push_item(&mut a14, json_text("pending"));
    push_member(&mut m13, "enum", json_array(a14));
    push_member(&mut m2, "status", json_object(m13));
    let mut m15: Vec<(String, JsonValue)> = Vec::new();
    push_member(&mut m15, "type", json_text("string"));
    push_member(&mut m2, "tool", json_object(m15));
    push_member(&mut m1, "properties", json_object(m2));
    let mut a16: Vec<JsonValue> = Vec::new();
    push_item(&mut a16, json_text("tool"));
    push_item(&mut a16, json_text("status"));
    push_item(&mut a16, json_text("input"));
    push_item(&mut a16, json_text("driver_class"));
    push_item(&mut a16, json_text("permission_request_id"));
    push_item(&mut a16, json_text("request_status"));
    push_item(&mut a16, json_text("scope"));
    push_member(&mut m1, "required", json_array(a16));
    push_member(&mut m1, "type", json_text("object"));
    json_object(m1)
}

/// The input schema of `load_skill`.
pub open spec fn load_skill_input_schema() -> JsonModel {
    JsonModel::Object(Seq::<(Seq<char>, JsonModel)>::empty().push(("additionalProperties"@, JsonModel::Bool(false))).push(("properties"@, JsonModel::Object(Seq::<(Seq<char>, JsonModel)>::empty().push(("name"@, JsonModel::Object(Seq::<(Seq<char>, JsonModel)>::empty().push(("type"@, JsonModel::Text("string"@))))))))).push(("required"@, JsonModel::Array(Seq::<JsonModel>::empty().push(JsonModel::Text("name"@))))).push(("type"@, JsonModel::Text("object"@))))
}

fn load_skill_input_schema_value() -> (r: JsonValue)
    ensures
        json_model(r) == load_skill_input_schema(),
{
    let mut m1: Vec<(String, JsonValue)> = Vec::new();
    push_member(&mut m1, "additionalProperties", json_bool(false));
    let mut m2: Vec<(String, JsonValue)> = Vec::new();
    let mut m3: Vec<(String, JsonValue)> = Vec::new();
    push_member(&mut m3, "type", json_text("string"));
    push_member(&mut m2, "name", json_object(m3));
    push_member(&mut m1, "properties", json_object(m2));
    let mut a4: Vec<JsonValue> = Vec::new();
    push_item(&mut a4, json_text("name"));
    push_member(&mut m1, "required", json_array(a4));
    push_member(&mut m1, "type", json_text("object"));
    json_object(m1)
}

/// The output schema of `load_skill`.
pub open spec fn load_skill_output_schema() -> JsonModel {
    JsonModel::Object(Seq::<(Seq<char>, JsonModel)>::empty().push(("additionalProperties"@, JsonModel::Bool(false))).push(("properties"@, JsonModel::Object(Seq::<(Seq<char>, JsonModel)>::empty().push(("content"@, JsonModel::Object(Seq::<(Seq<char>, JsonModel)>::empty().push(("type"@, JsonModel::Text("string"@)))))).push(("description"@, JsonModel::Object(Seq::<(Seq<char>, JsonModel)>::empty().push(("type"@, JsonModel::Text("string"@)))))).push(("driver_class"@, JsonModel::Object(Seq::<(Seq<char>, JsonModel)>::empty().push(("type"@, JsonModel::Text("string"@)))))).push(("input"@, JsonModel::Object(Seq::<(Seq<char>, JsonModel)>::empty().push(("type"@, JsonModel::Text("object"@)))))).push(("name"@, JsonModel::Object(Seq::<(Seq<char>, JsonModel)>::empty().push(("type"@, JsonModel::Text("string"@)))))).push(("root_path"@, JsonModel::Object(Seq::<(Seq<char>, JsonModel)>::empty().push(("type"@, JsonModel::Text("string"@)))))).push(("skill_file_path"@, JsonModel::Object(Seq::<(Seq<char>, JsonModel)>::empty().push(("type"@, JsonModel::Text("string"@)))))).push(("skill_id"@, JsonModel::Object(Seq::<(Seq<char>, JsonModel)>::empty().push(("type"@, JsonModel::Text("string"@)))))).push(("status"@, JsonModel::Object(Seq::<(Seq<char>, JsonModel)>::empty().push(("enum"@, JsonModel::Array(Seq::<JsonModel>::empty().push(JsonModel::Text("ok"@)))))))).push(("tool"@, JsonModel::Object(Seq::<(Seq<char>, JsonModel)>::empty().push(("type"@, JsonModel::Text("string"@))))))))).push(("required"@, JsonModel::Array(Seq::<JsonModel>::empty().push(JsonModel::Text("tool"@)).push(JsonModel::Text("status"@)).push(JsonModel::Text("input"@)).push(JsonModel::Text("driver_class"@)).push(JsonModel::Text("skill_id"@)).push(JsonModel::Text("name"@)).push(JsonModel::Text("description"@)).push(JsonModel::Text("content"@))))).push(("type"@, JsonModel::Text("object"@))))
}

fn load_skill_output_schema_value() -> (r: JsonValue)
    ensures
        json_model(r) == load_skill_output_schema(),
{
    let mut m1: Vec<(String, JsonValue)> = Vec::new();
    push_member(&mut m1, "additionalProperties", json_bool(false));
    let mut m2: Vec<(String, JsonValue)> = Vec::new();
    let mut m3: Vec<(String, JsonValue)> = Vec::new();
    push_member(&mut m3, "type", json_text("string"));
    push_member(&mut m2, "content", json_object(m3));
    let mut m4: Vec<(String, JsonValue)> = Vec::new();
    push_member(&mut m4, "type", json_text("string"));
    push_member(&mut m2, "description", json_object(m4));
    let mut m5: Vec<(String, JsonValue)> = Vec::new();
    push_member(&mut m5, "type", json_text("string"));
    push_member(&mut m2, "driver_class", json_object(m5));
    let mut m6: Vec<(String, JsonValue)> = Vec::new();
    push_member(&mut m6, "type", json_text("object"));
    push_member(&mut m2, "input", json_object(m6));
    let mut m7: Vec<(String, JsonValue)> = Vec::new();
    push_member(&mut m7, "type", json_text("string"));
    push_member(&mut m2, "name", json_object(m7));
    let mut m8: Vec<(String, JsonValue)> = Vec::new();
    push_member(&mut m8, "type", json_text("string"));
    push_member(&mut m2, "root_path", json_object(m8));
    let mut m9: Vec<(String, JsonValue)> = Vec::new();
    push_member(&mut m9, "type", json_text("string"));
    push_member(&mut m2, "skill_file_path", json_object(m9));
    let mut m10: Vec<(String, JsonValue)> = Vec::new();
    push_member(&mut m10, "type", json_text("string"));
    push_member(&mut m2, "skill_id", json_object(m10));
    let mut m11: Vec<(String, JsonValue)> = Vec::new();
    let mut a12: Vec<JsonValue> = Vec::new();
    push_item(&mut a12, json_text("ok"));
    push_member(&mut m11, "enum", json_array(a12));
    push_member(&mut m2, "status", json_object(m11));
    let mut m13: Vec<(String, JsonValue)> = Vec::new();
    push_member(&mut m13, "type", json_text("string"));
    push_member(&mut m2, "tool", json_object(m13));
    push_member(&mut m1, "properties", json_object(m2));
    let mut a14: Vec<JsonValue> = Vec::new();
    push_item(&mut a14, json_text("tool"));
    push_item(&mut a14, json_text("status"));
    push_item(&mut a14, json_text("input"));
    push_item(&mut a14, json_text("driver_class"));
    push_item(&mut a14, json_text("skill_id"));
    push_item(&mut a14, json_text("name"));
    push_item(&mut a14, json_text("description"));
    push_item(&mut a14, json_text("content"));
    push_member(&mut m1, "required", json_array(a14));
    push_member(&mut m1, "type", json_text("object"));
    json_object(m1)
}

/// The input schema of `read_skill_resource`.
pub open spec fn read_skill_resource_input_schema() -> JsonModel {
    JsonModel::Object(Seq::<(Seq<char>, JsonModel)>::empty().push(("additionalProperties"@, JsonModel::Bool(false))).push(("properties"@, JsonModel::Object(Seq::<(Seq<char>, JsonModel)>::empty().push(("name"@, JsonModel::Object(Seq::<(Seq<char>, JsonModel)>::empty().push(("type"@, JsonModel::Text("string"@)))))).push(("path"@, JsonModel::Object(Seq::<(Seq<char>, JsonModel)>::empty().push(("type"@, JsonModel::Text("string"@))))))))).push(("required"@, JsonModel::Array(Seq::<JsonModel>::empty().push(JsonModel::Text("name"@)).push(JsonModel::Text("path"@))))).push(("type"@, JsonModel::Text("object"@))))
}

fn read_skill_resource_input_schema_value() -> (r: JsonValue)
    ensures
        json_model(r) == read_skill_resource_input_schema(),
{
    let mut m1: Vec<(String, JsonValue)> = Vec::new();
    push_member(&mut m1, "additionalProperties", json_bool(false));
    let mut m2: Vec<(String, JsonValue)> = Vec::new();
    let mut m3: Vec<(String, JsonValue)> = Vec::new();
    push_member(&mut m3, "type", json_text("string"));
    push_member(&mut m2, "name", json_object(m3));
    let mut m4: Vec<(String, JsonValue)> = Vec::new();
    push_member(&mut m4, "type", json_text("string"));
    push_member(&mut m2, "path", json_object(m4));
    push_member(&mut m1, "properties", json_object(m2));
    let mut a5: Vec<JsonValue> = Vec::new();
    push_item(&mut a5, json_text("name"));
    push_item(&mut a5, json_text("path"));
    push_member(&mut m1, "required", json_array(a5));
    push_member(&mut m1, "type", json_text("object"));
    json_object(m1)
}

/// The output schema of `read_skill_resource`.
pub open spec fn read_skill_resource_output_schema() -> JsonModel {
    JsonModel::Object(Seq::<(Seq<char>, JsonModel)>::empty().push(("additionalProperties"@, JsonModel::Bool(false))).push(("properties"@, JsonModel::Object(Seq::<(Seq<char>, JsonModel)>::empty().push(("bytes_read"@, JsonModel::Object(Seq::<(Seq<char>, JsonModel)>::empty().push(("type"@, JsonModel::Text("integer"@)))))).push(("content"@, JsonModel::Object(Seq::<(Seq<char>, JsonModel)>::empty().push(("type"@, JsonModel::Text("string"@)))))).push(("driver_class"@, JsonModel::Object(Seq::<(Seq<char>, JsonModel)>::empty().push(("type"@, JsonModel::Text("string"@)))))).push(("input"@, JsonModel::Object(Seq::<(Seq<char>, JsonModel)>::empty().push(("type"@, JsonModel::Text("object"@)))))).push(("name"@, JsonModel::Object(Seq::<(Seq<char>, JsonModel)>::empty().push(("type"@, JsonModel::Text("string"@)))))).push(("path"@, JsonModel::Object(Seq::<(Seq<char>, JsonModel)>::empty().push(("type"@, JsonModel::Text("string"@)))))).push(("skill_id"@, JsonModel::Object(Seq::<(Seq<char>, JsonModel)>::empty().push(("type"@, JsonModel::Text("string"@)))))).push(("status"@, JsonModel::Object(Seq::<(Seq<char>, JsonModel)>::empty().push(("enum"@, JsonModel::Array(Seq::<JsonModel>::empty().push(JsonModel::Text("ok"@)))))))).push(("tool"@, JsonModel::Object(Seq::<(Seq<char>, JsonModel)>::empty().push(("type"@, JsonModel::Text("string"@))))))))).push(("required"@, JsonModel::Array(Seq::<JsonModel>::empty().push(JsonModel::Text("tool"@)).push(JsonModel::Text("status"@)).push(JsonModel::Text("input"@)).push(JsonModel::Text("driver_class"@)).push(JsonModel::Text("skill_id"@)).push(JsonModel::Text("name"@)).push(JsonModel::Text("path"@)).push(JsonModel::Text("content"@)).push(JsonModel::Text("bytes_read"@))))).push(("type"@, JsonModel::Text("object"@))))
}

fn read_skill_resource_output_schema_value() -> (r: JsonValue)
    ensures
        json_model(r) == read_skill_resource_output_schema(),
{
    let mut m1: Vec<(String, JsonValue)> = Vec::new();
    push_member(&mut m1, "additionalProperties", json_bool(false));
    let mut m2: Vec<(String, JsonValue)> = Vec::new();
    let mut m3: Vec<(String, JsonValue)> = Vec::new();
    push_member(&mut m3, "type", json_text("integer"));
    push_member(&mut m2, "bytes_read", json_object(m3));
    let mut m4: Vec<(String, JsonValue)> = Vec::new();
    push_member(&mut m4, "type", json_text("string"));
    push_member(&mut m2, "content", json_object(m4));
    let mut m5: Vec<(String, JsonValue)> = Vec::new();
    push_member(&mut m5, "type", json_text("string"));
    push_member(&mut m2, "driver_class", json_object(m5));
    let mut m6: Vec<(String, JsonValue)> = Vec::new();
    push_member(&mut m6, "type", json_text("object"));
    push_member(&mut m2, "input", json_object(m6));
    let mut m7: Vec<(String, JsonValue)> = Vec::new();
    push_member(&mut m7, "type", json_text("string"));
    push_member(&mut m2, "name", json_object(m7));
    let mut m8: Vec<(String, JsonValue)> = Vec::new();
    push_member(&mut m8, "type", json_text("string"));
    push_member(&mut m2, "path", json_object(m8));
    let mut m9: Vec<(String, JsonValue)> = Vec::new();
    push_member(&mut m9, "type", json_text("string"));
    push_member(&mut m2, "skill_id", json_object(m9));
    let mut m10: Vec<(String, JsonValue)> = Vec::new();
    let mut a11: Vec<JsonValue> = Vec::new();
    push_item(&mut a11, json_text("ok"));
    push_member(&mut m10, "enum", json_array(a11));
    push_member(&mut m2, "status", json_object(m10));
    let mut m12: Vec<(String, JsonValue)> = Vec::new();
    push_member(&mut m12, "type", json_text("string"));
    push_member(&mut m2, "tool", json_object(m12));
    push_member(&mut m1, "properties", json_object(m2));
    let mut a13: Vec<JsonValue> = Vec::new();
    push_item(&mut a13, json_text("tool"));
    push_item(&mut a13, json_text("status"));
    push_item(&mut a13, json_text("input"));
    push_item(&mut a13, json_text("driver_class"));
    push_item(&mut a13, json_text("skill_id"));
    push_item(&mut a13, json_text("name"));
    push_item(&mut a13, json_text("path"));
    push_item(&mut a13, json_text("content"));
    push_item(&mut a13, json_text("bytes_read"));
    push_member(&mut m1, "required", json_array(a13));
    push_member(&mut m1, "type", json_text("object"));
    json_object(m1)
}

/// The input schema of `submit_final`.
pub open spec fn submit_final_input_schema() -> JsonModel {
    JsonModel::Object(Seq::<(Seq<char>, JsonModel)>::empty().push(("additionalProperties"@, JsonModel::Bool(false))).push(("properties"@, JsonModel::Object(Seq::<(Seq<char>, JsonModel)>::empty().push(("approvals"@, JsonModel::Object(Seq::<(Seq<char>, JsonModel)>::empty().push(("items"@, JsonModel::Object(Seq::<(Seq<char>, JsonModel)>::empty().push(("type"@, JsonModel::Text("string"@)))))).push(("type"@, JsonModel::Text("array"@)))))).push(("changed_artifacts"@, JsonModel::Object(Seq::<(Seq<char>, JsonModel)>::empty().push(("items"@, JsonModel::Object(Seq::<(Seq<char>, JsonModel)>::empty().push(("type"@, JsonModel::Text("string"@)))))).push(("type"@, JsonModel::Text("array"@)))))).push(("evidence_map"@, JsonModel::Object(Seq::<(Seq<char>, JsonModel)>::empty().push(("items"@, JsonModel::Object(Seq::<(Seq<char>, JsonModel)>::empty().push(("additionalProperties"@, JsonModel::Bool(false))).push(("properties"@, JsonModel::Object(Seq::<(Seq<char>, JsonModel)>::empty().push(("claim"@, JsonModel::Object(Seq::<(Seq<char>, JsonModel)>::empty().push(("type"@, JsonModel::Text("string"@)))))).push(("evidence_refs"@, JsonModel::Object(Seq::<(Seq<char>, JsonModel)>::empty().push(("items"@, JsonModel::Object(Seq::<(Seq<char>, JsonModel)>::empty().push(("type"@, JsonModel::Text("string"@)))))).push(("type"@, JsonModel::Text("array"@))))))))).push(("required"@, JsonModel::Array(Seq::<JsonModel>::empty().push(JsonModel::Text("claim"@)).push(JsonModel::Text("evidence_refs"@))))).push(("type"@, JsonModel::Text("object"@)))))).push(("type"@, JsonModel::Text("array"@)))))).push(("known_risks"@, JsonModel::Object(Seq::<(Seq<char>, JsonModel)>::empty().push(("items"@, JsonModel::Object(Seq::<(Seq<char>, JsonModel)>::empty().push(("type"@, JsonModel::Text("string"@)))))).push(("type"@, JsonModel::Text("array"@)))))).push(("summary"@, JsonModel::Object(Seq::<(Seq<char>, JsonModel)>::empty().push(("type"@, JsonModel::Text("string"@)))))).push(("tests_not_run"@, JsonModel::Object(Seq::<(Seq<char>, JsonModel)>::empty().push(("items"@, JsonModel::Object(Seq::<(Seq<char>, JsonModel)>::empty().push(("type"@, JsonModel::Text("string"@)))))).push(("type"@, JsonModel::Text("array"@)))))).push(("tests_run"@, JsonModel::Object(Seq::<(Seq<char>, JsonModel)>::empty().push(("items"@, JsonModel::Object(Seq::<(Seq<char>, JsonModel)>::empty().push(("type"@, JsonModel::Text("string"@)))))).push(("type"@, JsonModel::Text("array"@)))))).push(("unverified_claims"@, JsonModel::Object(Seq::<(Seq<char>, JsonModel)>::empty().push(("items"@, JsonModel::Object(Seq::<(Seq<char>, JsonModel)>::empty().push(("type"@, JsonModel::Text("string"@)))))).push(("type"@, JsonModel::Text("array"@))))))))).push(("required"@, JsonModel::Array(Seq::<JsonModel>::empty().push(JsonModel::Text("summary"@)).push(JsonModel::Text("evidence_map"@))))).push(("type"@, JsonModel::Text("object"@))))
}

fn submit_final_input_schema_value() -> (r: JsonValue)
    ensures
        json_model(r) == submit_final_input_schema(),
{
    let mut m1: Vec<(String, JsonValue)> = Vec::new();
    push_member(&mut m1, "additionalProperties", json_bool(false));
    let mut m2: Vec<(String, JsonValue)> = Vec::new();
    let mut m3: Vec<(String, JsonValue)> = Vec::new();
    let mut m4: Vec<(String, JsonValue)> = Vec::new();
    push_member(&mut m4, "type", json_text("string"));
    push_member(&mut m3, "items", json_object(m4));
    push_member(&mut m3, "type", json_text("array"));
    push_member(&mut m2, "approvals", json_object(m3));
    let mut m5: Vec<(String, JsonValue)> = Vec::new();
    let mut m6: Vec<(String, JsonValue)> = Vec::new();
    push_member(&mut m6, "type", json_text("string"));
    push_member(&mut m5, "items", json_object(m6));
    push_member(&mut m5, "type", json_text("array"));
    push_member(&mut m2, "changed_artifacts", json_object(m5));
    let mut m7: Vec<(String, JsonValue)> = Vec::new();
    let mut m8: Vec<(String, JsonValue)> = Vec::new();
    push_member(&mut m8, "additionalProperties", json_bool(false));
    let mut m9: Vec<(String, JsonValue)> = Vec::new();
    let mut m10: Vec<(String, JsonValue)> = Vec::new();
    push_member(&mut m10, "type", json_text("string"));
    push_member(&mut m9, "claim", json_object(m10));
    let mut m11: Vec<(String, JsonValue)> = Vec::new();
    let mut m12: Vec<(String, JsonValue)> = Vec::new();
    push_member(&mut m12, "type", json_text("string"));
    push_member(&mut m11, "items", json_object(m12));
    push_member(&mut m11, "type", json_text("array"));
    push_member(&mut m9, "evidence_refs", json_object(m11));
    push_member(&mut m8, "properties", json_object(m9));
    let mut a13: Vec<JsonValue> = Vec::new();
    push_item(&mut a13, json_text("claim"));
    push_item(&mut a13, json_text("evidence_refs"));
    push_member(&mut m8, "required", json_array(a13));
    push_member(&mut m8, "type", json_text("object"));
    push_member(&mut m7, "items", json_object(m8));
    push_member(&mut m7, "type", json_text("array"));
    push_member(&mut m2, "evidence_map", json_object(m7));
    let mut m14: Vec<(String, JsonValue)> = Vec::new();
    let mut m15: Vec<(String, JsonValue)> = Vec::new();
    push_member(&mut m15, "type", json_text("string"));
    push_member(&mut m14, "items", json_object(m15));
    push_member(&mut m14, "type", json_text("array"));
    push_member(&mut m2, "known_risks", json_object(m14));
    let mut m16: Vec<(String, JsonValue)> = Vec::new();
    push_member(&mut m16, "type", json_text("string"));
    push_member(&mut m2, "summary", json_object(m16));
    let mut m17: Vec<(String, JsonValue)> = Vec::new();
    let mut m18: Vec<(String, JsonValue)> = Vec::new();
    push_member(&mut m18, "type", json_text("string"));
    push_member(&mut m17, "items", json_object(m18));
    push_member(&mut m17, "type", json_text("array"));
    push_member(&mut m2, "tests_not_run", json_object(m17));
    let mut m19: Vec<(String, JsonValue)> = Vec::new();
    let mut m20: Vec<(String, JsonValue)> = Vec::new();
    push_member(&mut m20, "type", json_text("string"));
    push_member(&mut m19, "items", json_object(m20));
    push_member(&mut m19, "type", json_text("array"));
    push_member(&mut m2, "tests_run", json_object(m19));
    let mut m21: Vec<(String, JsonValue)> = Vec::new();
    let mut m22: Vec<(String, JsonValue)> = Vec::new();
    push_member(&mut m22, "type", json_text("string"));
    push_member(&mut m21, "items", json_object(m22));
    push_member(&mut m21, "type", json_text("array"));
    push_member(&mut m2, "unverified_claims", json_object(m21));
    push_member(&mut m1, "properties", json_object(m2));
    let mut a23: Vec<JsonValue> = Vec::new();
    push_item(&mut a23, json_text("summary"));
    push_item(&mut a23, json_text("evidence_map"));
    push_member(&mut m1, "required", json_array(a23));
    push_member(&mut m1, "type", json_text("object"));
    json_object(m1)
}

/// The output schema of `submit_final`.
pub open spec fn submit_final_output_schema() -> JsonModel {
    JsonModel::Object(Seq::<(Seq<char>, JsonModel)>::empty().push(("additionalProperties"@, JsonModel::Bool(false))).push(("properties"@, JsonModel::Object(Seq::<(Seq<char>, JsonModel)>::empty().push(("driver_class"@, JsonModel::Object(Seq::<(Seq<char>, JsonModel)>::empty().push(("type"@, JsonModel::Text("string"@)))))).push(("evidence_map_entries"@, JsonModel::Object(Seq::<(Seq<char>, JsonModel)>::empty().push(("type"@, JsonModel::Text("integer"@)))))).push(("final_submitted"@, JsonModel::Object(Seq::<(Seq<char>, JsonModel)>::empty().push(("type"@, JsonModel::Text("boolean"@)))))).push(("input"@, JsonModel::Object(Seq::<(Seq<char>, JsonModel)>::empty().push(("type"@, JsonModel::Text("object"@)))))).push(("status"@, JsonModel::Object(Seq::<(Seq<char>, JsonModel)>::empty().push(("enum"@, JsonModel::Array(Seq::<JsonModel>::empty().push(JsonModel::Text("ok"@)))))))).push(("summary"@, JsonModel::Object(Seq::<(Seq<char>, JsonModel)>::empty().push(("type"@, JsonModel::Text("string"@)))))).push(("task_id"@, JsonModel::Object(Seq::<(Seq<char>, JsonModel)>::empty().push(("type"@, JsonModel::Text("string"@)))))).push(("tool"@, JsonModel::Object(Seq::<(Seq<char>, JsonModel)>::empty().push(("type"@, JsonModel::Text("string"@))))))))).push(("required"@, JsonModel::Array(Seq::<JsonModel>::empty().push(JsonModel::Text("tool"@)).push(JsonModel::Text("status"@)).push(JsonModel::Text("input"@)).push(JsonModel::Text("driver_class"@)).push(JsonModel::Text("task_id"@)).push(JsonModel::Text("final_submitted"@)).push(JsonModel::Text("summary"@)).push(JsonModel::Text("evidence_map_entries"@))))).push(("type"@, JsonModel::Text("object"@))))
}

fn submit_final_output_schema_value() -> (r: JsonValue)
    ensures
        json_model(r) == submit_final_output_schema(),
{
    let mut m1: Vec<(String, JsonValue)> = Vec::new();
    push_member(&mut m1, "additionalProperties", json_bool(false));
    let mut m2: Vec<(String, JsonValue)> = Vec::new();
    let mut m3: Vec<(String, JsonValue)> = Vec::new();
    push_member(&mut m3, "type", json_text("string"));
    push_member(&mut m2, "driver_class", json_object(m3));
    let mut m4: Vec<(String, JsonValue)> = Vec::new();
    push_member(&mut m4, "type", json_text("integer"));
    push_member(&mut m2, "evidence_map_entries", json_object(m4));
    let mut m5: Vec<(String, JsonValue)> = Vec::new();
    push_member(&mut m5, "type", json_text("boolean"));
    push_member(&mut m2, "final_submitted", json_object(m5));
    let mut m6: Vec<(String, JsonValue)> = Vec::new();
    push_member(&mut m6, "type", json_text("object"));
    push_member(&mut m2, "input", json_object(m6));
    let mut m7: Vec<(String, JsonValue)> = Vec::new();
    let mut a8: Vec<JsonValue> = Vec::new();
    push_item(&mut a8, json_text("ok"));
    push_member(&mut m7, "enum", json_array(a8));
    push_member(&mut m2, "status", json_object(m7));
    let mut m9: Vec<(String, JsonValue)> = Vec::new();
    push_member(&mut m9, "type", json_text("string"));
    push_member(&mut m2, "summary", json_object(m9));
    let mut m10: Vec<(String, JsonValue)> = Vec::new();
    push_member(&mut m10, "type", json_text("string"));
    push_member(&mut m2, "task_id", json_object(m10));
    let mut m11: Vec<(String, JsonValue)> = Vec::new();
    push_member(&mut m11, "type", json_text("string"));
    push_member(&mut m2, "tool", json_object(m11));
    push_member(&mut m1, "properties", json_object(m2));
    let mut a12: Vec<JsonValue> = Vec::new();
    push_item(&mut a12, json_text("tool"));
    push_item(&mut a12, json_text("status"));
    push_item(&mut a12, json_text("input"));
    push_item(&mut a12, json_text("driver_class"));
    push_item(&mut a12, json_text("task_id"));
    push_item(&mut a12, json_text("final_submitted"));
    push_item(&mut a12, json_text("summary"));
    push_item(&mut a12, json_text("evidence_map_entries"));
    push_member(&mut m1, "required", json_array(a12));
    push_member(&mut m1, "type", json_text("object"));
    json_object(m1)
}

/// The input schema of `agent_control`.
pub open spec fn agent_control_input_schema() -> JsonModel {
    JsonModel::Object(Seq::<(Seq<char>, JsonModel)>::empty().push(("additionalProperties"@, JsonModel::Bool(false))).push(("properties"@, JsonModel::Object(Seq::<(Seq<char>, JsonModel)>::empty().push(("action"@, JsonModel::Object(Seq::<(Seq<char>, JsonModel)>::empty().push(("enum"@, JsonModel::Array(Seq::<JsonModel>::empty().push(JsonModel::Text("start"@)).push(JsonModel::Text("status"@)).push(JsonModel::Text("output"@)).push(JsonModel::Text("set_hook"@)).push(JsonModel::Text("send"@)).push(JsonModel::Text("resume"@)).push(JsonModel::Text("stop"@)).push(JsonModel::Text("set_timeout"@)).push(JsonModel::Text("export_trace"@)).push(JsonModel::Text("kill"@)).push(JsonModel::Text("delete_session"@)).push(JsonModel::Text("purge_state"@)).push(JsonModel::Text("approve_permission"@)).push(JsonModel::Text("deny_permission"@)))))))).push(("agent_id"@, JsonModel::Object(Seq::<(Seq<char>, JsonModel)>::empty().push(("type"@, JsonModel::Text("string"@)))))).push(("idempotency_key"@, JsonModel::Object(Seq::<(Seq<char>, JsonModel)>::empty().push(("type"@, JsonModel::Text("string"@)))))).push(("payload"@, JsonModel::Object(Seq::<(Seq<char>, JsonModel)>::empty().push(("type"@, JsonModel::Text("object"@)))))).push(("thread_id"@, JsonModel::Object(Seq::<(Seq<char>, JsonModel)>::empty().push(("type"@, JsonModel::Text("string"@))))))))).push(("required"@, JsonModel::Array(Seq::<JsonModel>::empty().push(JsonModel::Text("action"@))))).push(("type"@, JsonModel::Text("object"@))))
}

fn agent_control_input_schema_value() -> (r: JsonValue)
    ensures
        json_model(r) == agent_control_input_schema(),
{
    let mut m1: Vec<(String, JsonValue)> = Vec::new();
    push_member(&mut m1, "additionalProperties", json_bool(false));
    let mut m2: Vec<(String, JsonValue)> = Vec::new();
    let mut m3: Vec<(String, JsonValue)> = Vec::new();
    let mut a4: Vec<JsonValue> = Vec::new();
    push_item(&mut a4, json_text("start"));
    push_item(&mut a4, json_text("status"));
    push_item(&mut a4, json_text("output"));
    push_item(&mut a4, json_text("set_hook"));
    push_item(&mut a4, json_text("send"));
    push_item(&mut a4, json_text("resume"));
    push_item(&mut a4, json_text("stop"));
    push_item(&mut a4, json_text("set_timeout"));
    push_item(&mut a4, json_text("export_trace"));
    push_item(&mut a4, json_text("kill"));
    push_item(&mut a4, json_text("delete_session"));
    push_item(&mut a4, json_text("purge_state"));
    push_item(&mut a4, json_text("approve_permission"));
    push_item(&mut a4, json_text("deny_permission"));
    push_member(&mut m3, "enum", json_array(a4));
    push_member(&mut m2, "action", json_object(m3));
    let mut m5: Vec<(String, JsonValue)> = Vec::new();
    push_member(&mut m5, "type", json_text("string"));
    push_member(&mut m2, "agent_id", json_object(m5));
    let mut m6: Vec<(String, JsonValue)> = Vec::new();
    push_member(&mut m6, "type", json_text("string"));
    push_member(&mut m2, "idempotency_key", json_object(m6));
    let mut m7: Vec<(String, JsonValue)> = Vec::new();
    push_member(&mut m7, "type", json_text("object"));
    push_member(&mut m2, "payload", json_object(m7));
    let mut m8: Vec<(String, JsonValue)> = Vec::new();
    push_member(&mut m8, "type", json_text("string"));
    push_member(&mut m2, "thread_id", json_object(m8));
    push_member(&mut m1, "properties", json_object(m2));
    let mut a9: Vec<JsonValue> = Vec::new();
    push_item(&mut a9, json_text("action"));
    push_member(&mut m1, "required", json_array(a9));
    push_member(&mut m1, "type", json_text("object"));
    json_object(m1)
}

/// The output schema of `agent_control`.
pub open spec fn agent_control_output_schema() -> JsonModel {
    JsonModel::Object(Seq::<(Seq<char>, JsonModel)>::empty().push(("additionalProperties"@, JsonModel::Bool(true))).push(("properties"@, JsonModel::Object(Seq::<(Seq<char>, JsonModel)>::empty().push(("action"@, JsonModel::Object(Seq::<(Seq<char>, JsonModel)>::empty().push(("type"@, JsonModel::Text("string"@)))))).push(("driver_class"@, JsonModel::Object(Seq::<(Seq<char>, JsonModel)>::empty().push(("type"@, JsonModel::Text("string"@)))))).push(("status"@, JsonModel::Object(Seq::<(Seq<char>, JsonModel)>::empty().push(("enum"@, JsonModel::Array(Seq::<JsonModel>::empty().push(JsonModel::Text("ok"@)))))))).push(("tool"@, JsonModel::Object(Seq::<(Seq<char>, JsonModel)>::empty().push(("type"@, JsonModel::Text("string"@))))))))).push(("required"@, JsonModel::Array(Seq::<JsonModel>::empty().push(JsonModel::Text("tool"@)).push(JsonModel::Text("status"@)).push(JsonModel::Text("action"@)).push(JsonModel::Text("driver_class"@))))).push(("type"@, JsonModel::Text("object"@))))
}

fn agent_control_output_schema_value() -> (r: JsonValue)
    ensures
        json_model(r) == agent_control_output_schema(),
{
    let mut m1: Vec<(String, JsonValue)> = Vec::new();
    push_member(&mut m1, "additionalProperties", json_bool(true));
    let mut m2: Vec<(String, JsonValue)> = Vec::new();
    let mut m3: Vec<(String, JsonValue)> = Vec::new();
    push_member(&mut m3, "type", json_text("string"));
    push_member(&mut m2, "action", json_object(m3));
    let mut m4: Vec<(String, JsonValue)> = Vec::new();
    push_member(&mut m4, "type", json_text("string"));
    push_member(&mut m2, "driver_class", json_object(m4));
    let mut m5: Vec<(String, JsonValue)> = Vec::new();
    let mut a6: Vec<JsonValue> = Vec::new();
    push_item(&mut a6, json_text("ok"));
    push_member(&mut m5, "enum", json_array(a6));
    push_member(&mut m2, "status", json_object(m5));
    let mut m7: Vec<(String, JsonValue)> = Vec::new();
    push_member(&mut m7, "type", json_text("string"));
    push_member(&mut m2, "tool", json_object(m7));
    push_member(&mut m1, "properties", json_object(m2));
    let mut a8: Vec<JsonValue> = Vec::new();
    push_item(&mut a8, json_text("tool"));
    push_item(&mut a8, json_text("status"));
    push_item(&mut a8, json_text("action"));
    push_item(&mut a8, json_text("driver_class"));
    push_member(&mut m1, "required", json_array(a8));
    push_member(&mut m1, "type", json_text("object"));
    json_object(m1)
}

/// The input schema the model fills in for `read_file`.
pub open spec fn read_file_model_schema() -> JsonModel {
    JsonModel::Object(Seq::<(Seq<char>, JsonModel)>::empty().push(("additionalProperties"@, JsonModel::Bool(false))).push(("properties"@, JsonModel::Object(Seq::<(Seq<char>, JsonModel)>::empty().push(("path"@, JsonModel::Object(Seq::<(Seq<char>, JsonModel)>::empty().push(("description"@, JsonModel::Text("Workspace-relative path to read. Do not use absolute paths or '..'."@))).push(("type"@, JsonModel::Text("string"@))))))))).push(("required"@, JsonModel::Array(Seq::<JsonModel>::empty().push(JsonModel::Text("path"@))))).push(("type"@, JsonModel::Text("object"@))))
}

fn read_file_model_schema_value() -> (r: JsonValue)
    ensures
        json_model(r) == read_file_model_schema(),
{
    let mut m1: Vec<(String, JsonValue)> = Vec::new();
    push_member(&mut m1, "additionalProperties", json_bool(false));
    let mut m2: Vec<(String, JsonValue)> = Vec::new();
    let mut m3: Vec<(String, JsonValue)> = Vec::new();
    push_member(&mut m3, "description", json_text("Workspace-relative path to read. Do not use absolute paths or '..'."));
    push_member(&mut m3, "type", json_text("string"));
    push_member(&mut m2, "path", json_object(m3));
    push_member(&mut m1, "properties", json_object(m2));
    let mut a4: Vec<JsonValue> = Vec::new();
    push_item(&mut a4, json_text("path"));
    push_member(&mut m1, "required", json_array(a4));
    push_member(&mut m1, "type", json_text("object"));
    json_object(m1)
}

/// The input schema the model fills in for `write_file`.
pub open spec fn write_file_model_schema() -> JsonModel {
    JsonModel::Object(Seq::<(Seq<char>, JsonModel)>::empty().push(("additionalProperties"@, JsonModel::Bool(false))).push(("properties"@, JsonModel::Object(Seq::<(Seq<char>, JsonModel)>::empty().push(("content"@, JsonModel::Object(Seq::<(Seq<char>, JsonModel)>::empty().push(("description"@, JsonModel::Text("Complete final file content."@))).push(("type"@, JsonModel::Text("string"@)))))).push(("path"@, JsonModel::Object(Seq::<(Seq<char>, JsonModel)>::empty().push(("description"@, JsonModel::Text("Workspace-relative target path."@))).push(("type"@, JsonModel::Text("string"@))))))))).push(("required"@, JsonModel::Array(Seq::<JsonModel>::empty().push(JsonModel::Text("path"@)).push(JsonModel::Text("content"@))))).push(("type"@, JsonModel::Text("object"@))))
}

fn write_file_model_schema_value() -> (r: JsonValue)
    ensures
        json_model(r) == write_file_model_schema(),
{
    let mut m1: Vec<(String, JsonValue)> = Vec::new();
    push_member(&mut m1, "additionalProperties", json_bool(false));
    let mut m2: Vec<(String, JsonValue)> = Vec::new();
    let mut m3: Vec<(String, JsonValue)> = Vec::new();
    push_member(&mut m3, "description", json_text("Complete final file content."));
    push_member(&mut m3, "type", json_text("string"));
    push_member(&mut m2, "content", json_object(m3));
    let mut m4: Vec<(String, JsonValue)> = Vec::new();
    push_member(&mut m4, "description", json_text("Workspace-relative target path."));
    push_member(&mut m4, "type", json_text("string"));
    push_member(&mut m2, "path", json_object(m4));
    push_member(&mut m1, "properties", json_object(m2));
    let mut a5: Vec<JsonValue> = Vec::new();
    push_item(&mut a5, json_text("path"));
    push_item(&mut a5, json_text("content"));
    push_member(&mut m1, "required", json_array(a5));
    push_member(&mut m1, "type", json_text("object"));
    json_object(m1)
}

/// The input schema the model fills in for `replace_text`.
pub open spec fn replace_text_model_schema() -> JsonModel {
    JsonModel::Object(Seq::<(Seq<char>, JsonModel)>::empty().push(("additionalProperties"@, JsonModel::Bool(false))).push(("properties"@, JsonModel::Object(Seq::<(Seq<char>, JsonModel)>::empty().push(("new"@, JsonModel::Object(Seq::<(Seq<char>, JsonModel)>::empty().push(("description"@, JsonModel::Text("Replacement text."@))).push(("type"@, JsonModel::Text("string"@)))))).push(("old"@, JsonModel::Object(Seq::<(Seq<char>, JsonModel)>::empty().push(("description"@, JsonModel::Text("Exact text that must appear once."@))).push(("type"@, JsonModel::Text("string"@)))))).push(("path"@, JsonModel::Object(Seq::<(Seq<char>, JsonModel)>::empty().push(("type"@, JsonModel::Text("string"@))))))))).push(("required"@, JsonModel::Array(Seq::<JsonModel>::empty().push(JsonModel::Text("path"@)).push(JsonModel::Text("old"@)).push(JsonModel::Text("new"@))))).push(("type"@, JsonModel::Text("object"@))))
}

fn replace_text_model_schema_value() -> (r: JsonValue)
    ensures
        json_model(r) == replace_text_model_schema(),
{
    let mut m1: Vec<(String, JsonValue)> = Vec::new();
    push_member(&mut m1, "additionalProperties", json_bool(false));
    let mut m2: Vec<(String, JsonValue)> = Vec::new();
    let mut m3: Vec<(String, JsonValue)> = Vec::new();
    push_member(&mut m3, "description", json_text("Replacement text."));
    push_member(&mut m3, "type", json_text("string"));
    push_member(&mut m2, "new", json_object(m3));
    let mut m4: Vec<(String, JsonValue)> = Vec::new();
    push_member(&mut m4, "description", json_text("Exact text that must appear once."));
    push_member(&mut m4, "type", json_text("string"));
    push_member(&mut m2, "old", json_object(m4));
    let mut m5: Vec<(String, JsonValue)> = Vec::new();
    push_member(&mut m5, "type", json_text("string"));
    push_member(&mut m2, "path", json_object(m5));
    push_member(&mut m1, "properties", json_object(m2));
    let mut a6: Vec<JsonValue> = Vec::new();
    push_item(&mut a6, json_text("path"));
    push_item(&mut a6, json_text("old"));
    push_item(&mut a6, json_text("new"));
    push_member(&mut m1, "required", json_array(a6));
    push_member(&mut m1, "type", json_text("object"));
    json_object(m1)
}

/// The input schema the model fills in for `delete_file`.
pub open spec fn delete_file_model_schema() -> JsonModel {
    JsonModel::Object(Seq::<(Seq<char>, JsonModel)>::empty().push(("additionalProperties"@, JsonModel::Bool(false))).push(("properties"@, JsonModel::Object(Seq::<(Seq<char>, JsonModel)>::empty().push(("path"@, JsonModel::Object(Seq::<(Seq<char>, JsonModel)>::empty().push(("description"@, JsonModel::Text("Workspace-relative path to delete."@))).push(("type"@, JsonModel::Text("string"@))))))))).push(("required"@, JsonModel::Array(Seq::<JsonModel>::empty().push(JsonModel::Text("path"@))))).push(("type"@, JsonModel::Text("object"@))))
}

fn delete_file_model_schema_value() -> (r: JsonValue)
    ensures
        json_model(r) == delete_file_model_schema(),
{
    let mut m1: Vec<(String, JsonValue)> = Vec::new();
    push_member(&mut m1, "additionalProperties", json_bool(false));
    let mut m2: Vec<(String, JsonValue)> = Vec::new();
    let mut m3: Vec<(String, JsonValue)> = Vec::new();
    push_member(&mut m3, "description", json_text("Workspace-relative path to delete."));
    push_member(&mut m3, "type", json_text("string"));
    push_member(&mut m2, "path", json_object(m3));
    push_member(&mut m1, "properties", json_object(m2));
    let mut a4: Vec<JsonValue> = Vec::new();
    push_item(&mut a4, json_text("path"));
    push_member(&mut m1, "required", json_array(a4));
    push_member(&mut m1, "type", json_text("object"));
    json_object(m1)
}

/// The input schema the model fills in for `run_command`.
pub open spec fn run_command_model_schema() -> JsonModel {
    JsonModel::Object(Seq::<(Seq<char>, JsonModel)>::empty().push(("additionalProperties"@, JsonModel::Bool(false))).push(("properties"@, JsonModel::Object(Seq::<(Seq<char>, JsonModel)>::empty().push(("args"@, JsonModel::Object(Seq::<(Seq<char>, JsonModel)>::empty().push(("items"@, JsonModel::Object(Seq::<(Seq<char>, JsonModel)>::empty().push(("type"@, JsonModel::Text("string"@)))))).push(("type"@, JsonModel::Text("array"@)))))).push(("program"@, JsonModel::Object(Seq::<(Seq<char>, JsonModel)>::empty().push(("type"@, JsonModel::Text("string"@))))))))).push(("required"@, JsonModel::Array(Seq::<JsonModel>::empty().push(JsonModel::Text("program"@)).push(JsonModel::Text("args"@))))).push(("type"@, JsonModel::Text("object"@))))
}

fn run_command_model_schema_value() -> (r: JsonValue)
    ensures
        json_model(r) == run_command_model_schema(),
{
    let mut m1: Vec<(String, JsonValue)> = Vec::new();
    push_member(&mut m1, "additionalProperties", json_bool(false));
    let mut m2: Vec<(String, JsonValue)> = Vec::new();
    let mut m3: Vec<(String, JsonValue)> = Vec::new();
    let mut m4: Vec<(String, JsonValue)> = Vec::new();
    push_member(&mut m4, "type", json_text("string"));
    push_member(&mut m3, "items", json_object(m4));
    push_member(&mut m3, "type", json_text("array"));
    push_member(&mut m2, "args", json_object(m3));
    let mut m5: Vec<(String, JsonValue)> = Vec::new();
    push_member(&mut m5, "type", json_text("string"));
    push_member(&mut m2, "program", json_object(m5));
    push_member(&mut m1, "properties", json_object(m2));
    let mut a6: Vec<JsonValue> = Vec::new();
    push_item(&mut a6, json_text("program"));
    push_item(&mut a6, json_text("args"));
    push_member(&mut m1, "required", json_array(a6));
    push_member(&mut m1, "type", json_text("object"));
    json_object(m1)
}

/// The input schema the model fills in for `set_goal`.
pub open spec fn set_goal_model_schema() -> JsonModel {
    JsonModel::Object(Seq::<(Seq<char>, JsonModel)>::empty().push(("additionalProperties"@, JsonModel::Bool(false))).push(("properties"@, JsonModel::Object(Seq::<(Seq<char>, JsonModel)>::empty().push(("failure_criteria"@, JsonModel::Object(Seq::<(Seq<char>, JsonModel)>::empty().push(("items"@, JsonModel::Object(Seq::<(Seq<char>, JsonModel)>::empty().push(("type"@, JsonModel::Text("string"@)))))).push(("type"@, JsonModel::Text("array"@)))))).push(("goal"@, JsonModel::Object(Seq::<(Seq<char>, JsonModel)>::empty().push(("type"@, JsonModel::Text("string"@)))))).push(("success_criteria"@, JsonModel::Object(Seq::<(Seq<char>, JsonModel)>::empty().push(("items"@, JsonModel::Object(Seq::<(Seq<char>, JsonModel)>::empty().push(("type"@, JsonModel::Text("string"@)))))).push(("type"@, JsonModel::Text("array"@)))))).push(("target_agent_id"@, JsonModel::Object(Seq::<(Seq<char>, JsonModel)>::empty().push(("type"@, JsonModel::Text("string"@)))))).push(("target_thread_id"@, JsonModel::Object(Seq::<(Seq<char>, JsonModel)>::empty().push(("type"@, JsonModel::Text("string"@)))))).push(("title"@, JsonModel::Object(Seq::<(Seq<char>, JsonModel)>::empty().push(("type"@, JsonModel::Text("string"@))))))))).push(("required"@, JsonModel::Array(Seq::<JsonModel>::empty().push(JsonModel::Text("goal"@))))).push(("type"@, JsonModel::Text("object"@))))
}

fn set_goal_model_schema_value() -> (r: JsonValue)
    ensures
        json_model(r) == set_goal_model_schema(),
{
    let mut m1: Vec<(String, JsonValue)> = Vec::new();
    push_member(&mut m1, "additionalProperties", json_bool(false));
    let mut m2: Vec<(String, JsonValue)> = Vec::new();
    let mut m3: Vec<(String, JsonValue)> = Vec::new();
    let mut m4: Vec<(String, JsonValue)> = Vec::new();
    push_member(&mut m4, "type", json_text("string"));
    push_member(&mut m3, "items", json_object(m4));
    push_member(&mut m3, "type", json_text("array"));
    push_member(&mut m2, "failure_criteria", json_object(m3));
    let mut m5: Vec<(String, JsonValue)> = Vec::new();
    push_member(&mut m5, "type", json_text("string"));
    push_member(&mut m2, "goal", json_object(m5));
    let mut m6: Vec<(String, JsonValue)> = Vec::new();
    let mut m7: Vec<(String, JsonValue)> = Vec::new();
    push_member(&mut m7, "type", json_text("string"));
    push_member(&mut m6, "items", json_object(m7));
    push_member(&mut m6, "type", json_text("array"));
    push_member(&mut m2, "success_criteria", json_object(m6));
    let mut m8: Vec<(String, JsonValue)> = Vec::new();
    push_member(&mut m8, "type", json_text("string"));
    push_member(&mut m2, "target_agent_id", json_object(m8));
    let mut m9: Vec<(String, JsonValue)> = Vec::new();
    push_member(&mut m9, "type", json_text("string"));
    push_member(&mut m2, "target_thread_id", json_object(m9));
    let mut m10: Vec<(String, JsonValue)> = Vec::new();
    push_member(&mut m10, "type", json_text("string"));
    push_member(&mut m2, "title", json_object(m10));
    push_member(&mut m1, "properties", json_object(m2));
    let mut a11: Vec<JsonValue> = Vec::new();
    push_item(&mut a11, json_text("goal"));
    push_member(&mut m1, "required", json_array(a11));
    push_member(&mut m1, "type", json_text("object"));
    json_object(m1)
}

/// The input schema the model fills in for `accomplish_goal`.
pub open spec fn accomplish_goal_model_schema() -> JsonModel {
    JsonModel::Object(Seq::<(Seq<char>, JsonModel)>::empty().push(("additionalProperties"@, JsonModel::Bool(false))).push(("properties"@, JsonModel::Object(Seq::<(Seq<char>, JsonModel)>::empty().push(("artifact_refs"@, JsonModel::Object(Seq::<(Seq<char>, JsonModel)>::empty().push(("items"@, JsonModel::Object(Seq::<(Seq<char>, JsonModel)>::empty().push(("type"@, JsonModel::Text("string"@)))))).push(("type"@, JsonModel::Text("array"@)))))).push(("evidence_refs"@, JsonModel::Object(Seq::<(Seq<char>, JsonModel)>::empty().push(("items"@, JsonModel::Object(Seq::<(Seq<char>, JsonModel)>::empty().push(("type"@, JsonModel::Text("string"@)))))).push(("type"@, JsonModel::Text("array"@)))))).push(("known_risks"@, JsonModel::Object(Seq::<(Seq<char>, JsonModel)>::empty().push(("items"@, JsonModel::Object(Seq::<(Seq<char>, JsonModel)>::empty().push(("type"@, JsonModel::Text("string"@)))))).push(("type"@, JsonModel::Text("array"@)))))).push(("summary"@, JsonModel::Object(Seq::<(Seq<char>, JsonModel)>::empty().push(("type"@, JsonModel::Text("string"@))))))))).push(("required"@, JsonModel::Array(Seq::<JsonModel>::empty().push(JsonModel::Text("summary"@))))).push(("type"@, JsonModel::Text("object"@))))
}

fn accomplish_goal_model_schema_value() -> (r: JsonValue)
    ensures
        json_model(r) == accomplish_goal_model_schema(),
{
    let mut m1: Vec<(String, JsonValue)> = Vec::new();
    push_member(&mut m1, "additionalProperties", json_bool(false));
    let mut m2: Vec<(String, JsonValue)> = Vec::new();
    let mut m3: Vec<(String, JsonValue)> = Vec::new();
    let mut m4: Vec<(String, JsonValue)> = Vec::new();
    push_member(&mut m4, "type", json_text("string"));
    push_member(&mut m3, "items", json_object(m4));
    push_member(&mut m3, "type", json_text("array"));
    push_member(&mut m2, "artifact_refs", json_object(m3));
    let mut m5: Vec<(String, JsonValue)> = Vec::new();
    let mut m6: Vec<(String, JsonValue)> = Vec::new();
    push_member(&mut m6, "type", json_text("string"));
    push_member(&mut m5, "items", json_object(m6));
    push_member(&mut m5, "type", json_text("array"));
    push_member(&mut m2, "evidence_refs", json_object(m5));
    let mut m7: Vec<(String, JsonValue)> = Vec::new();
    let mut m8: Vec<(String, JsonValue)> = Vec::new();
    push_member(&mut m8, "type", json_text("string"));
    push_member(&mut m7, "items", json_object(m8));
    push_member(&mut m7, "type", json_text("array"));
    push_member(&mut m2, "known_risks", json_object(m7));
    let mut m9: Vec<(String, JsonValue)> = Vec::new();
    push_member(&mut m9, "type", json_text("string"));
    push_member(&mut m2, "summary", json_object(m9));
    push_member(&mut m1, "properties", json_object(m2));
    let mut a10: Vec<JsonValue> = Vec::new();
    push_item(&mut a10, json_text("summary"));
    push_member(&mut m1, "required", json_array(a10));
    push_member(&mut m1, "type", json_text("object"));
    json_object(m1)
}

/// The input schema the model fills in for `update_checklist`.
pub open spec fn update_checklist_model_schema() -> JsonModel {
    JsonModel::Object(Seq::<(Seq<char>, JsonModel)>::empty().push(("additionalProperties"@, JsonModel::Bool(false))).push(("properties"@, JsonModel::Object(Seq::<(Seq<char>, JsonModel)>::empty().push(("items"@, JsonModel::Object(Seq::<(Seq<char>, JsonModel)>::empty().push(("items"@, JsonModel::Object(Seq::<(Seq<char>, JsonModel)>::empty().push(("additionalProperties"@, JsonModel::Bool(false))).push(("properties"@, JsonModel::Object(Seq::<(Seq<char>, JsonModel)>::empty().push(("status"@, JsonModel::Object(Seq::<(Seq<char>, JsonModel)>::empty().push(("enum"@, JsonModel::Array(Seq::<JsonModel>::empty().push(JsonModel::Text("pending"@)).push(JsonModel::Text("in_progress"@)).push(JsonModel::Text("completed"@)).push(JsonModel::Text("blocked"@)))))))).push(("text"@, JsonModel::Object(Seq::<(Seq<char>, JsonModel)>::empty().push(("type"@, JsonModel::Text("string"@))))))))).push(("required"@, JsonModel::Array(Seq::<JsonModel>::empty().push(JsonModel::Text("text"@))))).push(("type"@, JsonModel::Text("object"@)))))).push(("type"@, JsonModel::Text("array"@)))))).push(("task_id"@, JsonModel::Object(Seq::<(Seq<char>, JsonModel)>::empty().push(("type"@, JsonModel::Text("string"@))))))))).push(("required"@, JsonModel::Array(Seq::<JsonModel>::empty().push(JsonModel::Text("items"@))))).push(("type"@, JsonModel::Text("object"@))))
}

fn update_checklist_model_schema_value() -> (r: JsonValue)
    ensures
        json_model(r) == update_checklist_model_schema(),
{
    let mut m1: Vec<(String, JsonValue)> = Vec::new();
    push_member(&mut m1, "additionalProperties", json_bool(false));
    let mut m2: Vec<(String, JsonValue)> = Vec::new();
    let mut m3: Vec<(String, JsonValue)> = Vec::new();
    let mut m4: Vec<(String, JsonValue)> = Vec::new();
    push_member(&mut m4, "additionalProperties", json_bool(false));
    let mut m5: Vec<(String, JsonValue)> = Vec::new();
    let mut m6: Vec<(String, JsonValue)> = Vec::new();
    let mut a7: Vec<JsonValue> = Vec::new();
    push_item(&mut a7, json_text("pending"));
    push_item(&mut a7, json_text("in_progress"));
    push_item(&mut a7, json_text("completed"));
    push_item(&mut a7, json_text("blocked"));
    push_member(&mut m6, "enum", json_array(a7));
    push_member(&mut m5, "status", json_object(m6));
    let mut m8: Vec<(String, JsonValue)> = Vec::new();
    push_member(&mut m8, "type", json_text("string"));
    push_member(&mut m5, "text", json_object(m8));
    push_member(&mut m4, "properties", json_object(m5));
    let mut a9: Vec<JsonValue> = Vec::new();
    push_item(&mut a9, json_text("text"));
    push_member(&mut m4, "required", json_array(a9));
    push_member(&mut m4, "type", json_text("object"));
    push_member(&mut m3, "items", json_object(m4));
    push_member(&mut m3, "type", json_text("array"));
    push_member(&mut m2, "items", json_object(m3));
    let mut m10: Vec<(String, JsonValue)> = Vec::new();
    push_member(&mut m10, "type", json_text("string"));
    push_member(&mut m2, "task_id", json_object(m10));
    push_member(&mut m1, "properties", json_object(m2));
    let mut a11: Vec<JsonValue> = Vec::new();
    push_item(&mut a11, json_text("items"));
    push_member(&mut m1, "required", json_array(a11));
    push_member(&mut m1, "type", json_text("object"));
    json_object(m1)
}

/// The input schema the model fills in for `record_evidence`.
pub open spec fn record_evidence_model_schema() -> JsonModel {
    JsonModel::Object(Seq::<(Seq<char>, JsonModel)>::empty().push(("additionalProperties"@, JsonModel::Bool(false))).push(("properties"@, JsonModel::Object(Seq::<(Seq<char>, JsonModel)>::empty().push(("artifact_id"@, JsonModel::Object(Seq::<(Seq<char>, JsonModel)>::empty().push(("type"@, JsonModel::Text("string"@)))))).push(("blob_ref"@, JsonModel::Object(Seq::<(Seq<char>, JsonModel)>::empty().push(("type"@, JsonModel::Text("string"@)))))).push(("claim"@, JsonModel::Object(Seq::<(Seq<char>, JsonModel)>::empty().push(("type"@, JsonModel::Text("string"@)))))).push(("content_hash"@, JsonModel::Object(Seq::<(Seq<char>, JsonModel)>::empty().push(("type"@, JsonModel::Text("string"@)))))).push(("evidence_type"@, JsonModel::Object(Seq::<(Seq<char>, JsonModel)>::empty().push(("enum"@, JsonModel::Array(Seq::<JsonModel>::empty().push(JsonModel::Text("source_ref"@)).push(JsonModel::Text("diff_ref"@)).push(JsonModel::Text("command_log"@)).push(JsonModel::Text("test_result"@)).push(JsonModel::Text("benchmark_result"@)).push(JsonModel::Text("review_finding"@)).push(JsonModel::Text("approval_record"@)).push(JsonModel::Text("runtime_trace"@)).push(JsonModel::Text("screenshot"@)).push(JsonModel::Text("external_reference"@)))))))).push(("inline_content"@, JsonModel::Object(Seq::<(Seq<char>, JsonModel)>::empty().push(("type"@, JsonModel::Text("string"@)))))).push(("metadata"@, JsonModel::Object(Seq::<(Seq<char>, JsonModel)>::empty().push(("type"@, JsonModel::Text("object"@)))))).push(("task_id"@, JsonModel::Object(Seq::<(Seq<char>, JsonModel)>::empty().push(("type"@, JsonModel::Text("string"@))))))))).push(("required"@, JsonModel::Array(Seq::<JsonModel>::empty().push(JsonModel::Text("evidence_type"@)).push(JsonModel::Text("claim"@))))).push(("type"@, JsonModel::Text("object"@))))
}

fn record_evidence_model_schema_value() -> (r: JsonValue)
    ensures
        json_model(r) == record_evidence_model_schema(),
{
    let mut m1: Vec<(String, JsonValue)> = Vec::new();
    push_member(&mut m1, "additionalProperties", json_bool(false));
    let mut m2: Vec<(String, JsonValue)> = Vec::new();
    let mut m3: Vec<(String, JsonValue)> = Vec::new();
    push_member(&mut m3, "type", json_text("string"));
    push_member(&mut m2, "artifact_id", json_object(m3));
    let mut m4: Vec<(String, JsonValue)> = Vec::new();
    push_member(&mut m4, "type", json_text("string"));
    push_member(&mut m2, "blob_ref", json_object(m4));
    let mut m5: Vec<(String, JsonValue)> = Vec::new();
    push_member(&mut m5, "type", json_text("string"));
    push_member(&mut m2, "claim", json_object(m5));
    let mut m6: Vec<(String, JsonValue)> = Vec::new();
    push_member(&mut m6, "type", json_text("string"));
    push_member(&mut m2, "content_hash", json_object(m6));
    let mut m7: Vec<(String, JsonValue)> = Vec::new();
    let mut a8: Vec<JsonValue> = Vec::new();
    push_item(&mut a8, json_text("source_ref"));
    push_item(&mut a8, json_text("diff_ref"));
    push_item(&mut a8, json_text("command_log"));
    push_item(&mut a8, json_text("test_result"));
    push_item(&mut a8, json_text("benchmark_result"));
    push_item(&mut a8, json_text("review_finding"));
    push_item(&mut a8, json_text("approval_record"));
    push_item(&mut a8, json_text("runtime_trace"));
    push_item(&mut a8, json_text("screenshot"));
    push_item(&mut a8, json_text("external_reference"));
    push_member(&mut m7, "enum", json_array(a8));
    push_member(&mut m2, "evidence_type", json_object(m7));
    let mut m9: Vec<(String, JsonValue)> = Vec::new();
    push_member(&mut m9, "type", json_text("string"));
    push_member(&mut m2, "inline_content", json_object(m9));
    let mut m10: Vec<(String, JsonValue)> = Vec::new();
    push_member(&mut m10, "type", json_text("object"));
    push_member(&mut m2, "metadata", json_object(m10));
    let mut m11: Vec<(String, JsonValue)> = Vec::new();
    push_member(&mut m11, "type", json_text("string"));
    push_member(&mut m2, "task_id", json_object(m11));
    push_member(&mut m1, "properties", json_object(m2));
    let mut a12: Vec<JsonValue> = Vec::new();
    push_item(&mut a12, json_text("evidence_type"));
    push_item(&mut a12, json_text("claim"));
    push_member(&mut m1, "required", json_array(a12));
    push_member(&mut m1, "type", json_text("object"));
    json_object(m1)
}

/// The input schema the model fills in for `report_supervisor`.
pub open spec fn report_supervisor_model_schema() -> JsonModel {
    JsonModel::Object(Seq::<(Seq<char>, JsonModel)>::empty().push(("additionalProperties"@, JsonModel::Bool(false))).push(("properties"@, JsonModel::Object(Seq::<(Seq<char>, JsonModel)>::empty().push(("artifact_refs"@, JsonModel::Object(Seq::<(Seq<char>, JsonModel)>::empty().push(("items"@, JsonModel::Object(Seq::<(Seq<char>, JsonModel)>::empty().push(("type"@, JsonModel::Text("string"@)))))).push(("type"@, JsonModel::Text("array"@)))))).push(("evidence_refs"@, JsonModel::Object(Seq::<(Seq<char>, JsonModel)>::empty().push(("items"@, JsonModel::Object(Seq::<(Seq<char>, JsonModel)>::empty().push(("type"@, JsonModel::Text("string"@)))))).push(("type"@, JsonModel::Text("array"@)))))).push(("message"@, JsonModel::Object(Seq::<(Seq<char>, JsonModel)>::empty().push(("type"@, JsonModel::Text("string"@)))))).push(("message_type"@, JsonModel::Object(Seq::<(Seq<char>, JsonModel)>::empty().push(("enum"@, JsonModel::Array(Seq::<JsonModel>::empty().push(JsonModel::Text("StatusUpdate"@)).push(JsonModel::Text("BlockerReport"@)).push(JsonModel::Text("RiskReport"@)).push(JsonModel::Text("CompletionReport"@))))))))))).push(("required"@, JsonModel::Array(Seq::<JsonModel>::empty().push(JsonModel::Text("message"@))))).push(("type"@, JsonModel::Text("object"@))))
}

fn report_supervisor_model_schema_value() -> (r: JsonValue)
    ensures
        json_model(r) == report_supervisor_model_schema(),
{
    let mut m1: Vec<(String, JsonValue)> = Vec::new();
    push_member(&mut m1, "additionalProperties", json_bool(false));
    let mut m2: Vec<(String, JsonValue)> = Vec::new();
    let mut m3: Vec<(String, JsonValue)> = Vec::new();
    let mut m4: Vec<(String, JsonValue)> = Vec::new();
    push_member(&mut m4, "type", json_text("string"));
    push_member(&mut m3, "items", json_object(m4));
    push_member(&mut m3, "type", json_text("array"));
    push_member(&mut m2, "artifact_refs", json_object(m3));
    let mut m5: Vec<(String, JsonValue)> = Vec::new();
    let mut m6: Vec<(String, JsonValue)> = Vec::new();
    push_member(&mut m6, "type", json_text("string"));
    push_member(&mut m5, "items", json_object(m6));
    push_member(&mut m5, "type", json_text("array"));
    push_member(&mut m2, "evidence_refs", json_object(m5));
    let mut m7: Vec<(String, JsonValue)> = Vec::new();
    push_member(&mut m7, "type", json_text("string"));
    push_member(&mut m2, "message", json_object(m7));
    let mut m8: Vec<(String, JsonValue)> = Vec::new();
    let mut a9: Vec<JsonValue> = Vec::new();
    push_item(&mut a9, json_text("StatusUpdate"));
    push_item(&mut a9, json_text("BlockerReport"));
    push_item(&mut a9, json_text("RiskReport"));
    push_item(&mut a9, json_text("CompletionReport"));
    push_member(&mut m8, "enum", json_array(a9));
    push_member(&mut m2, "message_type", json_object(m8));
    push_member(&mut m1, "properties", json_object(m2));
    let mut a10: Vec<JsonValue> = Vec::new();
    push_item(&mut a10, json_text("message"));
    push_member(&mut m1, "required", json_array(a10));
    push_member(&mut m1, "type", json_text("object"));
    json_object(m1)
}

/// The input schema the model fills in for `post_blackboard`.
pub open spec fn post_blackboard_model_schema() -> JsonModel {
    JsonModel::Object(Seq::<(Seq<char>, JsonModel)>::empty().push(("additionalProperties"@, JsonModel::Bool(false))).push(("properties"@, JsonModel::Object(Seq::<(Seq<char>, JsonModel)>::empty().push(("channel_id"@, JsonModel::Object(Seq::<(Seq<char>, JsonModel)>::empty().push(("type"@, JsonModel::Text("string"@)))))).push(("confidence"@, JsonModel::Object(Seq::<(Seq<char>, JsonModel)>::empty().push(("type"@, JsonModel::Text("number"@)))))).push(("content"@, JsonModel::Object(Seq::<(Seq<char>, JsonModel)>::empty().push(("type"@, JsonModel::Text("object"@)))))).push(("scope"@, JsonModel::Object(Seq::<(Seq<char>, JsonModel)>::empty().push(("enum"@, JsonModel::Array(Seq::<JsonModel>::empty().push(JsonModel::Text("task"@)).push(JsonModel::Text("goal"@)).push(JsonModel::Text("global"@)))))))).push(("section"@, JsonModel::Object(Seq::<(Seq<char>, JsonModel)>::empty().push(("enum"@, JsonModel::Array(Seq::<JsonModel>::empty().push(JsonModel::Text("known_fact"@)).push(JsonModel::Text("hypothesis"@)).push(JsonModel::Text("risk"@)).push(JsonModel::Text("open_question"@)).push(JsonModel::Text("test_result"@)).push(JsonModel::Text("review_result"@)))))))).push(("source_evidence_ids"@, JsonModel::Object(Seq::<(Seq<char>, JsonModel)>::empty().push(("items"@, JsonModel::Object(Seq::<(Seq<char>, JsonModel)>::empty().push(("type"@, JsonModel::Text("string"@)))))).push(("type"@, JsonModel::Text("array"@))))))))).push(("required"@, JsonModel::Array(Seq::<JsonModel>::empty().push(JsonModel::Text("channel_id"@)).push(JsonModel::Text("section"@)).push(JsonModel::Text("content"@))))).push(("type"@, JsonModel::Text("object"@))))
}

fn post_blackboard_model_schema_value() -> (r: JsonValue)
    ensures
        json_model(r) == post_blackboard_model_schema(),
{
    let mut m1: Vec<(String, JsonValue)> = Vec::new();
    push_member(&mut m1, "additionalProperties", json_bool(false));
    let mut m2: Vec<(String, JsonValue)> = Vec::new();
    let mut m3: Vec<(String, JsonValue)> = Vec::new();
    push_member(&mut m3, "type", json_text("string"));
    push_member(&mut m2, "channel_id", json_object(m3));
    let mut m4: Vec<(String, JsonValue)> = Vec::new();
    push_member(&mut m4, "type", json_text("number"));
    push_member(&mut m2, "confidence", json_object(m4));
    let mut m5: Vec<(String, JsonValue)> = Vec::new();
    push_member(&mut m5, "type", json_text("object"));
    push_member(&mut m2, "content", json_object(m5));
    let mut m6: Vec<(String, JsonValue)> = Vec::new();
    let mut a7: Vec<JsonValue> = Vec::new();
    push_item(&mut a7, json_text("task"));
    push_item(&mut a7, json_text("goal"));
    push_item(&mut a7, json_text("global"));
    push_member(&mut m6, "enum", json_array(a7));
    push_member(&mut m2, "scope", json_object(m6));
    let mut m8: Vec<(String, JsonValue)> = Vec::new();
    let mut a9: Vec<JsonValue> = Vec::new();
    push_item(&mut a9, json_text("known_fact"));
    push_item(&mut a9, json_text("hypothesis"));
    push_item(&mut a9, json_text("risk"));
    push_item(&mut a9, json_text("open_question"));
    push_item(&mut a9, json_text("test_result"));
    push_item(&mut a9, json_text("review_result"));
    push_member(&mut m8, "enum", json_array(a9));
    push_member(&mut m2, "section", json_object(m8));
    let mut m10: Vec<(String, JsonValue)> = Vec::new();
    let mut m11: Vec<(String, JsonValue)> = Vec::new();
    push_member(&mut m11, "type", json_text("string"));
    push_member(&mut m10, "items", json_object(m11));
    push_member(&mut m10, "type", json_text("array"));
    push_member(&mut m2, "source_evidence_ids", json_object(m10));
    push_member(&mut m1, "properties", json_object(m2));
    let mut a12: Vec<JsonValue> = Vec::new();
    push_item(&mut a12, json_text("channel_id"));
    push_item(&mut a12, json_text("section"));
    push_item(&mut a12, json_text("content"));
    push_member(&mut m1, "required", json_array(a12));
    push_member(&mut m1, "type", json_text("object"));
    json_object(m1)
}

/// The input schema the model fills in for `ask_human`.
pub open spec fn ask_human_model_schema() -> JsonModel {
    JsonModel::Object(Seq::<(Seq<char>, JsonModel)>::empty().push(("additionalProperties"@, JsonModel::Bool(false))).push(("properties"@, JsonModel::Object(Seq::<(Seq<char>, JsonModel)>::empty().push(("artifact_refs"@, JsonModel::Object(Seq::<(Seq<char>, JsonModel)>::empty().push(("items"@, JsonModel::Object(Seq::<(Seq<char>, JsonModel)>::empty().push(("type"@, JsonModel::Text("string"@)))))).push(("type"@, JsonModel::Text("array"@)))))).push(("context"@, JsonModel::Object(Seq::<(Seq<char>, JsonModel)>::empty().push(("type"@, JsonModel::Text("object"@)))))).push(("evidence_refs"@, JsonModel::Object(Seq::<(Seq<char>, JsonModel)>::empty().push(("items"@, JsonModel::Object(Seq::<(Seq<char>, JsonModel)>::empty().push(("type"@, JsonModel::Text("string"@)))))).push(("type"@, JsonModel::Text("array"@)))))).push(("message_type"@, JsonModel::Object(Seq::<(Seq<char>, JsonModel)>::empty().push(("enum"@, JsonModel::Array(Seq::<JsonModel>::empty().push(JsonModel::Text("HumanQuestion"@)).push(JsonModel::Text("HumanEscalation"@)).push(JsonModel::Text("ApprovalRequest"@)))))))).push(("question"@, JsonModel::Object(Seq::<(Seq<char>, JsonModel)>::empty().push(("type"@, JsonModel::Text("string"@))))))))).push(("required"@, JsonModel::Array(Seq::<JsonModel>::empty().push(JsonModel::Text("question"@))))).push(("type"@, JsonModel::Text("object"@))))
}

fn ask_human_model_schema_value() -> (r: JsonValue)
    ensures
        json_model(r) == ask_human_model_schema(),
{
    let mut m1: Vec<(String, JsonValue)> = Vec::new();
    push_member(&mut m1, "additionalProperties", json_bool(false));
    let mut m2: Vec<(String, JsonValue)> = Vec::new();
    let mut m3: Vec<(String, JsonValue)> = Vec::new();
    let mut m4: Vec<(String, JsonValue)> = Vec::new();
    push_member(&mut m4, "type", json_text("string"));
    push_member(&mut m3, "items", json_object(m4));
    push_member(&mut m3, "type", json_text("array"));
    push_member(&mut m2, "artifact_refs", json_object(m3));
    let mut m5: Vec<(String, JsonValue)> = Vec::new();
    push_member(&mut m5, "type", json_text("object"));
    push_member(&mut m2, "context", json_object(m5));
    let mut m6: Vec<(String, JsonValue)> = Vec::new();
    let mut m7: Vec<(String, JsonValue)> = Vec::new();
    push_member(&mut m7, "type", json_text("string"));
    push_member(&mut m6, "items", json_object(m7));
    push_member(&mut m6, "type", json_text("array"));
    push_member(&mut m2, "evidence_refs", json_object(m6));
    let mut m8: Vec<(String, JsonValue)> = Vec::new();
    let mut a9: Vec<JsonValue> = Vec::new();
    push_item(&mut a9, json_text("HumanQuestion"));
    push_item(&mut a9, json_text("HumanEscalation"));
    push_item(&mut a9, json_text("ApprovalRequest"));
    push_member(&mut m8, "enum", json_array(a9));
    push_member(&mut m2, "message_type", json_object(m8));
    let mut m10: Vec<(String, JsonValue)> = Vec::new();
    push_member(&mut m10, "type", json_text("string"));
    push_member(&mut m2, "question", json_object(m10));
    push_member(&mut m1, "properties", json_object(m2));
    let mut a11: Vec<JsonValue> = Vec::new();
    push_item(&mut a11, json_text("question"));
    push_member(&mut m1, "required", json_array(a11));
    push_member(&mut m1, "type", json_text("object"));
    json_object(m1)
}

/// The input schema the model fills in for `request_permissions`.
pub open spec fn request_permissions_model_schema() -> JsonModel {
    JsonModel::Object(Seq::<(Seq<char>, JsonModel)>::empty().push(("additionalProperties"@, JsonModel::Bool(false))).push(("properties"@, JsonModel::Object(Seq::<(Seq<char>, JsonModel)>::empty().push(("permissions"@, JsonModel::Object(Seq::<(Seq<char>, JsonModel)>::empty().push(("additionalProperties"@, JsonModel::Bool(false))).push(("properties"@, JsonModel::Object(Seq::<(Seq<char>, JsonModel)>::empty().push(("allowed_syscalls"@, JsonModel::Object(Seq::<(Seq<char>, JsonModel)>::empty().push(("items"@, JsonModel::Object(Seq::<(Seq<char>, JsonModel)>::empty().push(("type"@, JsonModel::Text("string"@)))))).push(("type"@, JsonModel::Text("array"@)))))).push(("allowed_tool_driver_classes"@, JsonModel::Object(Seq::<(Seq<char>, JsonModel)>::empty().push(("items"@, JsonModel::Object(Seq::<(Seq<char>, JsonModel)>::empty().push(("enum"@, JsonModel::Array(Seq::<JsonModel>::empty().push(JsonModel::Text("kernel_builtin"@)).push(JsonModel::Text("filesystem"@)).push(JsonModel::Text("shell"@)).push(JsonModel::Text("git"@)).push(JsonModel::Text("mcp"@)).push(JsonModel::Text("browser"@)).push(JsonModel::Text("external_api"@)))))))).push(("type"@, JsonModel::Text("array"@)))))).push(("allowed_tool_names"@, JsonModel::Object(Seq::<(Seq<char>, JsonModel)>::empty().push(("items"@, JsonModel::Object(Seq::<(Seq<char>, JsonModel)>::empty().push(("type"@, JsonModel::Text("string"@)))))).push(("type"@, JsonModel::Text("array"@)))))).push(("approval_required_above"@, JsonModel::Object(Seq::<(Seq<char>, JsonModel)>::empty().push(("maximum"@, JsonModel::Number(JsonNumber { mantissa: 6, scale: 0 }))).push(("minimum"@, JsonModel::Number(JsonNumber { mantissa: 0, scale: 0 }))).push(("type"@, JsonModel::Text("integer"@)))))).push(("max_risk_level"@, JsonModel::Object(Seq::<(Seq<char>, JsonModel)>::empty().push(("maximum"@, JsonModel::Number(JsonNumber { mantissa: 6, scale: 0 }))).push(("minimum"@, JsonModel::Number(JsonNumber { mantissa: 0, scale: 0 }))).push(("type"@, JsonModel::Text("integer"@)))))).push(("requires_evidence_for"@, JsonModel::Object(Seq::<(Seq<char>, JsonModel)>::empty().push(("items"@, JsonModel::Object(Seq::<(Seq<char>, JsonModel)>::empty().push(("type"@, JsonModel::Text("string"@)))))).push(("type"@, JsonModel::Text("array"@)))))).push(("resource_scopes"@, JsonModel::Object(Seq::<(Seq<char>, JsonModel)>::empty().push(("items"@, JsonModel::Object(Seq::<(Seq<char>, JsonModel)>::empty().push(("type"@, JsonModel::Text("string"@)))))).push(("type"@, JsonModel::Text("array"@))))))))).push(("required"@, JsonModel::Array(Seq::<JsonModel>::empty().push(JsonModel::Text("max_risk_level"@)).push(JsonModel::Text("allowed_syscalls"@)).push(JsonModel::Text("resource_scopes"@)).push(JsonModel::Text("allowed_tool_names"@)).push(JsonModel::Text("allowed_tool_driver_classes"@)).push(JsonModel::Text("approval_required_above"@)).push(JsonModel::Text("requires_evidence_for"@))))).push(("type"@, JsonModel::Text("object"@)))))).push(("reason"@, JsonModel::Object(Seq::<(Seq<char>, JsonModel)>::empty().push(("type"@, JsonModel::Text("string"@)))))).push(("scope"@, JsonModel::Object(Seq::<(Seq<char>, JsonModel)>::empty().push(("enum"@, JsonModel::Array(Seq::<JsonModel>::empty().push(JsonModel::Text("turn"@)).push(JsonModel::Text("session"@))))))))))).push(("required"@, JsonModel::Array(Seq::<JsonModel>::empty().push(JsonModel::Text("reason"@)).push(JsonModel::Text("permissions"@)).push(JsonModel::Text("scope"@))))).push(("type"@, JsonModel::Text("object"@))))
}

fn request_permissions_model_schema_value() -> (r: JsonValue)
    ensures
        json_model(r) == request_permissions_model_schema(),
{
    let mut m1: Vec<(String, JsonValue)> = Vec::new();
    push_member(&mut m1, "additionalProperties", json_bool(false));
    let mut m2: Vec<(String, JsonValue)> = Vec::new();
    let mut m3: Vec<(String, JsonValue)> = Vec::new();
    push_member(&mut m3, "additionalProperties", json_bool(false));
    let mut m4: Vec<(String, JsonValue)> = Vec::new();
    let mut m5: Vec<(String, JsonValue)> = Vec::new();
    let mut m6: Vec<(String, JsonValue)> = Vec::new();
    push_member(&mut m6, "type", json_text("string"));
    push_member(&mut m5, "items", json_object(m6));
    push_member(&mut m5, "type", json_text("array"));
    push_member(&mut m4, "allowed_syscalls", json_object(m5));
    let mut m7: Vec<(String, JsonValue)> = Vec::new();
    let mut m8: Vec<(String, JsonValue)> = Vec::new();
    let mut a9: Vec<JsonValue> = Vec::new();
    push_item(&mut a9, json_text("kernel_builtin"));
    push_item(&mut a9, json_text("filesystem"));
    push_item(&mut a9, json_text("shell"));
    push_item(&mut a9, json_text("git"));
    push_item(&mut a9, json_text("mcp"));
    push_item(&mut a9, json_text("browser"));
    push_item(&mut a9, json_text("external_api"));
    push_member(&mut m8, "enum", json_array(a9));
    push_member(&mut m7, "items", json_object(m8));
    push_member(&mut m7, "type", json_text("array"));
    push_member(&mut m4, "allowed_tool_driver_classes", json_object(m7));
    let mut m10: Vec<(String, JsonValue)> = Vec::new();
    let mut m11: Vec<(String, JsonValue)> = Vec::new();
    push_member(&mut m11, "type", json_text("string"));
    push_member(&mut m10, "items", json_object(m11));
    push_member(&mut m10, "type", json_text("array"));
    push_member(&mut m4, "allowed_tool_names", json_object(m10));
    let mut m12: Vec<(String, JsonValue)> = Vec::new();
    push_member(&mut m12, "maximum", json_int(6));
    push_member(&mut m12, "minimum", json_int(0));
    push_member(&mut m12, "type", json_text("integer"));
    push_member(&mut m4, "approval_required_above", json_object(m12));
    let mut m13: Vec<(String, JsonValue)> = Vec::new();
    push_member(&mut m13, "maximum", json_int(6));
    push_member(&mut m13, "minimum", json_int(0));
    push_member(&mut m13, "type", json_text("integer"));
    push_member(&mut m4, "max_risk_level", json_object(m13));
    let mut m14: Vec<(String, JsonValue)> = Vec::new();
    let mut m15: Vec<(String, JsonValue)> = Vec::new();
    push_member(&mut m15, "type", json_text("string"));
    push_member(&mut m14, "items", json_object(m15));
    push_member(&mut m14, "type", json_text("array"));
    push_member(&mut m4, "requires_evidence_for", json_object(m14));
    let mut m16: Vec<(String, JsonValue)> = Vec::new();
    let mut m17: Vec<(String, JsonValue)> = Vec::new();
    push_member(&mut m17, "type", json_text("string"));
    push_member(&mut m16, "items", json_object(m17));
    push_member(&mut m16, "type", json_text("array"));
    push_member(&mut m4, "resource_scopes", json_object(m16));
    push_member(&mut m3, "properties", json_object(m4));
    let mut a18: Vec<JsonValue> = Vec::new();
    push_item(&mut a18, json_text("max_risk_level"));
    push_item(&mut a18, json_text("allowed_syscalls"));
    push_item(&mut a18, json_text("resource_scopes"));
    push_item(&mut a18, json_text("allowed_tool_names"));
    push_item(&mut a18, json_text("allowed_tool_driver_classes"));
    push_item(&mut a18, json_text("approval_required_above"));
    push_item(&mut a18, json_text("requires_evidence_for"));
    push_member(&mut m3, "required", json_array(a18));
    push_member(&mut m3, "type", json_text("object"));
    push_member(&mut m2, "permissions", json_object(m3));
    let mut m19: Vec<(String, JsonValue)> = Vec::new();
    push_member(&mut m19, "type", json_text("string"));
    push_member(&mut m2, "reason", json_object(m19));
    let mut m20: Vec<(String, JsonValue)> = Vec::new();
    let mut a21: Vec<JsonValue> = Vec::new();
    push_item(&mut a21, json_text("turn"));
    push_item(&mut a21, json_text("session"));
    push_member(&mut m20, "enum", json_array(a21));
    push_member(&mut m2, "scope", json_object(m20));
    push_member(&mut m1, "properties", json_object(m2));
    let mut a22: Vec<JsonValue> = Vec::new();
    push_item(&mut a22, json_text("reason"));
    push_item(&mut a22, json_text("permissions"));
    push_item(&mut a22, json_text("scope"));
    push_member(&mut m1, "required", json_array(a22));
    push_member(&mut m1, "type", json_text("object"));
    json_object(m1)
}

/// The input schema the model fills in for `load_skill`.
pub open spec fn load_skill_model_schema() -> JsonModel {
    JsonModel::Object(Seq::<(Seq<char>, JsonModel)>::empty().push(("additionalProperties"@, JsonModel::Bool(false))).push(("properties"@, JsonModel::Object(Seq::<(Seq<char>, JsonModel)>::empty().push(("name"@, JsonModel::Object(Seq::<(Seq<char>, JsonModel)>::empty().push(("description"@, JsonModel::Text("Imported skill name."@))).push(("type"@, JsonModel::Text("string"@))))))))).push(("required"@, JsonModel::Array(Seq::<JsonModel>::empty().push(JsonModel::Text("name"@))))).push(("type"@, JsonModel::Text("object"@))))
}

fn load_skill_model_schema_value() -> (r: JsonValue)
    ensures
        json_model(r) == load_skill_model_schema(),
{
    let mut m1: Vec<(String, JsonValue)> = Vec::new();
    push_member(&mut m1, "additionalProperties", json_bool(false));
    let mut m2: Vec<(String, JsonValue)> = Vec::new();
    let mut m3: Vec<(String, JsonValue)> = Vec::new();
    push_member(&mut m3, "description", json_text("Imported skill name."));
    push_member(&mut m3, "type", json_text("string"));
    push_member(&mut m2, "name", json_object(m3));
    push_member(&mut m1, "properties", json_object(m2));
    let mut a4: Vec<JsonValue> = Vec::new();
    push_item(&mut a4, json_text("name"));
    push_member(&mut m1, "required", json_array(a4));
    push_member(&mut m1, "type", json_text("object"));
    json_object(m1)
}

/// The input schema the model fills in for `read_skill_resource`.
pub open spec fn read_skill_resource_model_schema() -> JsonModel {
    JsonModel::Object(Seq::<(Seq<char>, JsonModel)>::empty().push(("additionalProperties"@, JsonModel::Bool(false))).push(("properties"@, JsonModel::Object(Seq::<(Seq<char>, JsonModel)>::empty().push(("name"@, JsonModel::Object(Seq::<(Seq<char>, JsonModel)>::empty().push(("description"@, JsonModel::Text("Imported skill name."@))).push(("type"@, JsonModel::Text("string"@)))))).push(("path"@, JsonModel::Object(Seq::<(Seq<char>, JsonModel)>::empty().push(("description"@, JsonModel::Text("Skill-root-relative resource path."@))).push(("type"@, JsonModel::Text("string"@))))))))).push(("required"@, JsonModel::Array(Seq::<JsonModel>::empty().push(JsonModel::Text("name"@)).push(JsonModel::Text("path"@))))).push(("type"@, JsonModel::Text("object"@))))
}

fn read_skill_resource_model_schema_value() -> (r: JsonValue)
    ensures
        json_model(r) == read_skill_resource_model_schema(),
{
    let mut m1: Vec<(String, JsonValue)> = Vec::new();
    push_member(&mut m1, "additionalProperties", json_bool(false));
    let mut m2: Vec<(String, JsonValue)> = Vec::new();
    let mut m3: Vec<(String, JsonValue)> = Vec::new();
    push_member(&mut m3, "description", json_text("Imported skill name."));
    push_member(&mut m3, "type", json_text("string"));
    push_member(&mut m2, "name", json_object(m3));
    let mut m4: Vec<(String, JsonValue)> = Vec::new();
    push_member(&mut m4, "description", json_text("Skill-root-relative resource path."));
    push_member(&mut m4, "type", json_text("string"));
    push_member(&mut m2, "path", json_object(m4));
    push_member(&mut m1, "properties", json_object(m2));
    let mut a5: Vec<JsonValue> = Vec::new();
    push_item(&mut a5, json_text("name"));
    push_item(&mut a5, json_text("path"));
    push_member(&mut m1, "required", json_array(a5));
    push_member(&mut m1, "type", json_text("object"));
    json_object(m1)
}

/// The input schema the model fills in for `submit_final`.
pub open spec fn submit_final_model_schema() -> JsonModel {
    JsonModel::Object(Seq::<(Seq<char>, JsonModel)>::empty().push(("additionalProperties"@, JsonModel::Bool(false))).push(("properties"@, JsonModel::Object(Seq::<(Seq<char>, JsonModel)>::empty().push(("approvals"@, JsonModel::Object(Seq::<(Seq<char>, JsonModel)>::empty().push(("items"@, JsonModel::Object(Seq::<(Seq<char>, JsonModel)>::empty().push(("type"@, JsonModel::Text("string"@)))))).push(("type"@, JsonModel::Text("array"@)))))).push(("changed_artifacts"@, JsonModel::Object(Seq::<(Seq<char>, JsonModel)>::empty().push(("items"@, JsonModel::Object(Seq::<(Seq<char>, JsonModel)>::empty().push(("type"@, JsonModel::Text("string"@)))))).push(("type"@, JsonModel::Text("array"@)))))).push(("evidence_map"@, JsonModel::Object(Seq::<(Seq<char>, JsonModel)>::empty().push(("items"@, JsonModel::Object(Seq::<(Seq<char>, JsonModel)>::empty().push(("additionalProperties"@, JsonModel::Bool(false))).push(("properties"@, JsonModel::Object(Seq::<(Seq<char>, JsonModel)>::empty().push(("claim"@, JsonModel::Object(Seq::<(Seq<char>, JsonModel)>::empty().push(("type"@, JsonModel::Text("string"@)))))).push(("evidence_refs"@, JsonModel::Object(Seq::<(Seq<char>, JsonModel)>::empty().push(("items"@, JsonModel::Object(Seq::<(Seq<char>, JsonModel)>::empty().push(("type"@, JsonModel::Text("string"@)))))).push(("type"@, JsonModel::Text("array"@))))))))).push(("required"@, JsonModel::Array(Seq::<JsonModel>::empty().push(JsonModel::Text("claim"@)).push(JsonModel::Text("evidence_refs"@))))).push(("type"@, JsonModel::Text("object"@)))))).push(("type"@, JsonModel::Text("array"@)))))).push(("known_risks"@, JsonModel::Object(Seq::<(Seq<char>, JsonModel)>::empty().push(("items"@, JsonModel::Object(Seq::<(Seq<char>, JsonModel)>::empty().push(("type"@, JsonModel::Text("string"@)))))).push(("type"@, JsonModel::Text("array"@)))))).push(("summary"@, JsonModel::Object(Seq::<(Seq<char>, JsonModel)>::empty().push(("type"@, JsonModel::Text("string"@)))))).push(("tests_not_run"@, JsonModel::Object(Seq::<(Seq<char>, JsonModel)>::empty().push(("items"@, JsonModel::Object(Seq::<(Seq<char>, JsonModel)>::empty().push(("type"@, JsonModel::Text("string"@)))))).push(("type"@, JsonModel::Text("array"@)))))).push(("tests_run"@, JsonModel::Object(Seq::<(Seq<char>, JsonModel)>::empty().push(("items"@, JsonModel::Object(Seq::<(Seq<char>, JsonModel)>::empty().push(("type"@, JsonModel::Text("string"@)))))).push(("type"@, JsonModel::Text("array"@)))))).push(("unverified_claims"@, JsonModel::Object(Seq::<(Seq<char>, JsonModel)>::empty().push(("items"@, JsonModel::Object(Seq::<(Seq<char>, JsonModel)>::empty().push(("type"@, JsonModel::Text("string"@)))))).push(("type"@, JsonModel::Text("array"@))))))))).push(("required"@, JsonModel::Array(Seq::<JsonModel>::empty().push(JsonModel::Text("summary"@)).push(JsonModel::Text("evidence_map"@))))).push(("type"@, JsonModel::Text("object"@))))
}

fn submit_final_model_schema_value() -> (r: JsonValue)
    ensures
        json_model(r) == submit_final_model_schema(),
{
    let mut m1: Vec<(String, JsonValue)> = Vec::new();
    push_member(&mut m1, "additionalProperties", json_bool(false));
    let mut m2: Vec<(String, JsonValue)> = Vec::new();
    let mut m3: Vec<(String, JsonValue)> = Vec::new();
    let mut m4: Vec<(String, JsonValue)> = Vec::new();
    push_member(&mut m4, "type", json_text("string"));
    push_member(&mut m3, "items", json_object(m4));
    push_member(&mut m3, "type", json_text("array"));
    push_member(&mut m2, "approvals", json_object(m3));
    let mut m5: Vec<(String, JsonValue)> = Vec::new();
    let mut m6: Vec<(String, JsonValue)> = Vec::new();
    push_member(&mut m6, "type", json_text("string"));
    push_member(&mut m5, "items", json_object(m6));
    push_member(&mut m5, "type", json_text("array"));
    push_member(&mut m2, "changed_artifacts", json_object(m5));
    let mut m7: Vec<(String, JsonValue)> = Vec::new();
    let mut m8: Vec<(String, JsonValue)> = Vec::new();
    push_member(&mut m8, "additionalProperties", json_bool(false));
    let mut m9: Vec<(String, JsonValue)> = Vec::new();
    let mut m10: Vec<(String, JsonValue)> = Vec::new();
    push_member(&mut m10, "type", json_text("string"));
    push_member(&mut m9, "claim", json_object(m10));
    let mut m11: Vec<(String, JsonValue)> = Vec::new();
    let mut m12: Vec<(String, JsonValue)> = Vec::new();
    push_member(&mut m12, "type", json_text("string"));
    push_member(&mut m11, "items", json_object(m12));
    push_member(&mut m11, "type", json_text("array"));
    push_member(&mut m9, "evidence_refs", json_object(m11));
    push_member(&mut m8, "properties", json_object(m9));
    let mut a13: Vec<JsonValue> = Vec::new();
    push_item(&mut a13, json_text("claim"));
    push_item(&mut a13, json_text("evidence_refs"));
    push_member(&mut m8, "required", json_array(a13));
    push_member(&mut m8, "type", json_text("object"));
    push_member(&mut m7, "items", json_object(m8));
    push_member(&mut m7, "type", json_text("array"));
    push_member(&mut m2, "evidence_map", json_object(m7));
    let mut m14: Vec<(String, JsonValue)> = Vec::new();
    let mut m15: Vec<(String, JsonValue)> = Vec::new();
    push_member(&mut m15, "type", json_text("string"));
    push_member(&mut m14, "items", json_object(m15));
    push_member(&mut m14, "type", json_text("array"));
    push_member(&mut m2, "known_risks", json_object(m14));
    let mut m16: Vec<(String, JsonValue)> = Vec::new();
    push_member(&mut m16, "type", json_text("string"));
    push_member(&mut m2, "summary", json_object(m16));
    let mut m17: Vec<(String, JsonValue)> = Vec::new();
    let mut m18: Vec<(String, JsonValue)> = Vec::new();
    push_member(&mut m18, "type", json_text("string"));
    push_member(&mut m17, "items", json_object(m18));
    push_member(&mut m17, "type", json_text("array"));
    push_member(&mut m2, "tests_not_run", json_object(m17));
    let mut m19: Vec<(String, JsonValue)> = Vec::new();
    let mut m20: Vec<(String, JsonValue)> = Vec::new();
    push_member(&mut m20, "type", json_text("string"));
    push_member(&mut m19, "items", json_object(m20));
    push_member(&mut m19, "type", json_text("array"));
    push_member(&mut m2, "tests_run", json_object(m19));
    let mut m21: Vec<(String, JsonValue)> = Vec::new();
    let mut m22: Vec<(String, JsonValue)> = Vec::new();
    push_member(&mut m22, "type", json_text("string"));
    push_member(&mut m21, "items", json_object(m22));
    push_member(&mut m21, "type", json_text("array"));
    push_member(&mut m2, "unverified_claims", json_object(m21));
    push_member(&mut m1, "properties", json_object(m2));
    let mut a23: Vec<JsonValue> = Vec::new();
    push_item(&mut a23, json_text("summary"));
    push_item(&mut a23, json_text("evidence_map"));
    push_member(&mut m1, "required", json_array(a23));
    push_member(&mut m1, "type", json_text("object"));
    json_object(m1)
}

/// The input schema the model fills in for `agent_control`.
pub open spec fn agent_control_model_schema() -> JsonModel {
    JsonModel::Object(Seq::<(Seq<char>, JsonModel)>::empty().push(("additionalProperties"@, JsonModel::Bool(false))).push(("properties"@, JsonModel::Object(Seq::<(Seq<char>, JsonModel)>::empty().push(("action"@, JsonModel::Object(Seq::<(Seq<char>, JsonModel)>::empty().push(("enum"@, JsonModel::Array(Seq::<JsonModel>::empty().push(JsonModel::Text("start"@)).push(JsonModel::Text("status"@)).push(JsonModel::Text("output"@)).push(JsonModel::Text("set_hook"@)).push(JsonModel::Text("send"@)).push(JsonModel::Text("resume"@)).push(JsonModel::Text("stop"@)).push(JsonModel::Text("set_timeout"@)).push(JsonModel::Text("export_trace"@)).push(JsonModel::Text("kill"@)).push(JsonModel::Text("delete_session"@)).push(JsonModel::Text("purge_state"@)).push(JsonModel::Text("approve_permission"@)).push(JsonModel::Text("deny_permission"@)))))))).push(("agent_id"@, JsonModel::Object(Seq::<(Seq<char>, JsonModel)>::empty().push(("type"@, JsonModel::Text("string"@)))))).push(("idempotency_key"@, JsonModel::Object(Seq::<(Seq<char>, JsonModel)>::empty().push(("type"@, JsonModel::Text("string"@)))))).push(("payload"@, JsonModel::Object(Seq::<(Seq<char>, JsonModel)>::empty().push(("description"@, JsonModel::Text("Action-specific payload."@))).push(("type"@, JsonModel::Text("object"@)))))).push(("thread_id"@, JsonModel::Object(Seq::<(Seq<char>, JsonModel)>::empty().push(("type"@, JsonModel::Text("string"@))))))))).push(("required"@, JsonModel::Array(Seq::<JsonModel>::empty().push(JsonModel::Text("action"@))))).push(("type"@, JsonModel::Text("object"@))))
}

fn agent_control_model_schema_value() -> (r: JsonValue)
    ensures
        json_model(r) == agent_control_model_schema(),
{
    let mut m1: Vec<(String, JsonValue)> = Vec::new();
    push_member(&mut m1, "additionalProperties", json_bool(false));
    let mut m2: Vec<(String, JsonValue)> = Vec::new();
    let mut m3: Vec<(String, JsonValue)> = Vec::new();
    let mut a4: Vec<JsonValue> = Vec::new();
    push_item(&mut a4, json_text("start"));
    push_item(&mut a4, json_text("status"));
    push_item(&mut a4, json_text("output"));
    push_item(&mut a4, json_text("set_hook"));
    push_item(&mut a4, json_text("send"));
    push_item(&mut a4, json_text("resume"));
    push_item(&mut a4, json_text("stop"));
    push_item(&mut a4, json_text("set_timeout"));
    push_item(&mut a4, json_text("export_trace"));
    push_item(&mut a4, json_text("kill"));
    push_item(&mut a4, json_text("delete_session"));
    push_item(&mut a4, json_text("purge_state"));
    push_item(&mut a4, json_text("approve_permission"));
    push_item(&mut a4, json_text("deny_permission"));
    push_member(&mut m3, "enum", json_array(a4));
    push_member(&mut m2, "action", json_object(m3));
    let mut m5: Vec<(String, JsonValue)> = Vec::new();
    push_member(&mut m5, "type", json_text("string"));
    push_member(&mut m2, "agent_id", json_object(m5));
    let mut m6: Vec<(String, JsonValue)> = Vec::new();
    push_member(&mut m6, "type", json_text("string"));
    push_member(&mut m2, "idempotency_key", json_object(m6));
    let mut m7: Vec<(String, JsonValue)> = Vec::new();
    push_member(&mut m7, "description", json_text("Action-specific payload."));
    push_member(&mut m7, "type", json_text("object"));
    push_member(&mut m2, "payload", json_object(m7));
    let mut m8: Vec<(String, JsonValue)> = Vec::new();
    push_member(&mut m8, "type", json_text("string"));
    push_member(&mut m2, "thread_id", json_object(m8));
    push_member(&mut m1, "properties", json_object(m2));
    let mut a9: Vec<JsonValue> = Vec::new();
    push_item(&mut a9, json_text("action"));
    push_member(&mut m1, "required", json_array(a9));
    push_member(&mut m1, "type", json_text("object"));
    json_object(m1)
}

/// The model input schema `load_skill` is declared with.
pub open spec fn load_skill_given_model_schema() -> JsonModel {
    JsonModel::Object(Seq::<(Seq<char>, JsonModel)>::empty().push(("additionalProperties"@, JsonModel::Bool(false))).push(("properties"@, JsonModel::Object(Seq::<(Seq<char>, JsonModel)>::empty().push(("name"@, JsonModel::Object(Seq::<(Seq<char>, JsonModel)>::empty().push(("description"@, JsonModel::Text("Imported skill name."@))).push(("type"@, JsonModel::Text("string"@))))))))).push(("required"@, JsonModel::Array(Seq::<JsonModel>::empty().push(JsonModel::Text("name"@))))).push(("type"@, JsonModel::Text("object"@))))
}

fn load_skill_given_model_schema_value() -> (r: JsonValue)
    ensures
        json_model(r) == load_skill_given_model_schema(),
{
    let mut m1: Vec<(String, JsonValue)> = Vec::new();
    push_member(&mut m1, "additionalProperties", json_bool(false));
    let mut m2: Vec<(String, JsonValue)> = Vec::new();
    let mut m3: Vec<(String, JsonValue)> = Vec::new();
    push_member(&mut m3, "description", json_text("Imported skill name."));
    push_member(&mut m3, "type", json_text("string"));
    push_member(&mut m2, "name", json_object(m3));
    push_member(&mut m1, "properties", json_object(m2));
    let mut a4: Vec<JsonValue> = Vec::new();
    push_item(&mut a4, json_text("name"));
    push_member(&mut m1, "required", json_array(a4));
    push_member(&mut m1, "type", json_text("object"));
    json_object(m1)
}

/// The model input schema `read_skill_resource` is declared with.
pub open spec fn read_skill_resource_given_model_schema() -> JsonModel {
    JsonModel::Object(Seq::<(Seq<char>, JsonModel)>::empty().push(("additionalProperties"@, JsonModel::Bool(false))).push(("properties"@, JsonModel::Object(Seq::<(Seq<char>, JsonModel)>::empty().push(("name"@, JsonModel::Object(Seq::<(Seq<char>, JsonModel)>::empty().push(("description"@, JsonModel::Text("Imported skill name."@))).push(("type"@, JsonModel::Text("string"@)))))).push(("path"@, JsonModel::Object(Seq::<(Seq<char>, JsonModel)>::empty().push(("description"@, JsonModel::Text("Skill-root-relative resource path."@))).push(("type"@, JsonModel::Text("string"@))))))))).push(("required"@, JsonModel::Array(Seq::<JsonModel>::empty().push(JsonModel::Text("name"@)).push(JsonModel::Text("path"@))))).push(("type"@, JsonModel::Text("object"@))))
}

fn read_skill_resource_given_model_schema_value() -> (r: JsonValue)
    ensures
        json_model(r) == read_skill_resource_given_model_schema(),
{
    let mut m1: Vec<(String, JsonValue)> = Vec::new();
    push_member(&mut m1, "additionalProperties", json_bool(false));
    let mut m2: Vec<(String, JsonValue)> = Vec::new();
    let mut m3: Vec<(String, JsonValue)> = Vec::new();
    push_member(&mut m3, "description", json_text("Imported skill name."));
    push_member(&mut m3, "type", json_text("string"));
    push_member(&mut m2, "name", json_object(m3));
    let mut m4: Vec<(String, JsonValue)> = Vec::new();
    push_member(&mut m4, "description", json_text("Skill-root-relative resource path."));
    push_member(&mut m4, "type", json_text("string"));
    push_member(&mut m2, "path", json_object(m4));
    push_member(&mut m1, "properties", json_object(m2));
    let mut a5: Vec<JsonValue> = Vec::new();
    push_item(&mut a5, json_text("name"));
    push_item(&mut a5, json_text("path"));
    push_member(&mut m1, "required", json_array(a5));
    push_member(&mut m1, "type", json_text("object"));
    json_object(m1)
}

fn write_file_descriptor(now: &String) -> (r: ToolDescriptor)
    ensures
        is_seed_tool(r, "tool_write_file"@, "write_file"@, ToolDriverClass::Filesystem, 4, Some(EvidenceType::DiffRef), *now),
        r.description@ == ""@,
        r.model_input_schema is None,
        r.injected_fields@.len() == 0,
        texts(r.required_resource_scopes@).len() == 0,
        json_model(r.input_schema) == write_file_input_schema(),
        json_model(r.output_schema) == write_file_output_schema(),
{
    let scopes = Vec::new();
    proof {
        assert(texts(scopes@) =~= Seq::<Seq<char>>::empty());
    }
    ToolDescriptor {
        tool_id: String::from_str("tool_write_file"),
        name: String::from_str("write_file"),
        version: String::from_str("0.2.0"),
        description: String::from_str(""),
        risk_level: 4,
        driver_class: ToolDriverClass::Filesystem,
        input_schema: write_file_input_schema_value(),
        output_schema: write_file_output_schema_value(),
        evidence_type: Some(EvidenceType::DiffRef),
        foreground_timeout_ms: FOREGROUND_TIMEOUT_MS,
        required_resource_scopes: scopes,
        driver_config: JsonValue::Null,
        model_input_schema: None,
        injected_fields: Vec::new(),
        created_at: now.clone(),
    }
}

fn read_file_descriptor(now: &String) -> (r: ToolDescriptor)
    ensures
        is_seed_tool(r, "tool_read_file"@, "read_file"@, ToolDriverClass::Filesystem, 1, Some(EvidenceType::SourceRef), *now),
        r.description@ == ""@,
        r.model_input_schema is None,
        r.injected_fields@.len() == 0,
        texts(r.required_resource_scopes@).len() == 0,
        json_model(r.input_schema) == read_file_input_schema(),
        json_model(r.output_schema) == read_file_output_schema(),
{
    let scopes = Vec::new();
    proof {
        assert(texts(scopes@) =~= Seq::<Seq<char>>::empty());
    }
    ToolDescriptor {
        tool_id: String::from_str("tool_read_file"),
        name: String::from_str("read_file"),
        version: String::from_str("0.2.0"),
        description: String::from_str(""),
        risk_level: 1,
        driver_class: ToolDriverClass::Filesystem,
        input_schema: read_file_input_schema_value(),
        output_schema: read_file_output_schema_value(),
        evidence_type: Some(EvidenceType::SourceRef),
        foreground_timeout_ms: FOREGROUND_TIMEOUT_MS,
        required_resource_scopes: scopes,
        driver_config: JsonValue::Null,
        model_input_schema: None,
        injected_fields: Vec::new(),
        created_at: now.clone(),
    }
}

fn delete_file_descriptor(now: &String) -> (r: ToolDescriptor)
    ensures
        is_seed_tool(r, "tool_delete_file"@, "delete_file"@, ToolDriverClass::Filesystem, 4, Some(EvidenceType::DiffRef), *now),
        r.description@ == ""@,
        r.model_input_schema is None,
        r.injected_fields@.len() == 0,
        texts(r.required_resource_scopes@).len() == 0,
        json_model(r.input_schema) == delete_file_input_schema(),
        json_model(r.output_schema) == delete_file_output_schema(),
{
    let scopes = Vec::new();
    proof {
        assert(texts(scopes@) =~= Seq::<Seq<char>>::empty());
    }
    ToolDescriptor {
        tool_id: String::from_str("tool_delete_file"),
        name: String::from_str("delete_file"),
        version: String::from_str("0.2.0"),
        description: String::from_str(""),
        risk_level: 4,
        driver_class: ToolDriverClass::Filesystem,
        input_schema: delete_file_input_schema_value(),
        output_schema: delete_file_output_schema_value(),
        evidence_type: Some(EvidenceType::DiffRef),
        foreground_timeout_ms: FOREGROUND_TIMEOUT_MS,
        required_resource_scopes: scopes,
        driver_config: JsonValue::Null,
        model_input_schema: None,
        injected_fields: Vec::new(),
        created_at: now.clone(),
    }
}

fn replace_text_descriptor(now: &String) -> (r: ToolDescriptor)
    ensures
        is_seed_tool(r, "tool_replace_text"@, "replace_text"@, ToolDriverClass::Filesystem, 4, Some(EvidenceType::DiffRef), *now),
        r.description@ == ""@,
        r.model_input_schema is None,
        r.injected_fields@.len() == 0,
        texts(r.required_resource_scopes@).len() == 0,
        json_model(r.input_schema) == replace_text_input_schema(),
        json_model(r.output_schema) == replace_text_output_schema(),
{
    let scopes = Vec::new();
    proof {
        assert(texts(scopes@) =~= Seq::<Seq<char>>::empty());
    }
    ToolDescriptor {
        tool_id: String::from_str("tool_replace_text"),
        name: String::from_str("replace_text"),
        version: String::from_str("0.2.0"),
        description: String::from_str(""),
        risk_level: 4,
        driver_class: ToolDriverClass::Filesystem,
        input_schema: replace_text_input_schema_value(),
        output_schema: replace_text_output_schema_value(),
        evidence_type: Some(EvidenceType::DiffRef),
        foreground_timeout_ms: FOREGROUND_TIMEOUT_MS,
        required_resource_scopes: scopes,
        driver_config: JsonValue::Null,
        model_input_schema: None,
        injected_fields: Vec::new(),
        created_at: now.clone(),
    }
}

fn run_command_descriptor(now: &String) -> (r: ToolDescriptor)
    ensures
        is_seed_tool(r, "tool_run_command"@, "run_command"@, ToolDriverClass::Shell, 4, Some(EvidenceType::CommandLog), *now),
        r.description@ == ""@,
        r.model_input_schema is None,
        r.injected_fields@.len() == 0,
        texts(r.required_resource_scopes@).len() == 0,
        json_model(r.input_schema) == run_command_input_schema(),
        json_model(r.output_schema) == run_command_output_schema(),
{
    let scopes = Vec::new();
    proof {
        assert(texts(scopes@) =~= Seq::<Seq<char>>::empty());
    }
    ToolDescriptor {
        tool_id: String::from_str("tool_run_command"),
        name: String::from_str("run_command"),
        version: String::from_str("0.2.0"),
        description: String::from_str(""),
        risk_level: 4,
        driver_class: ToolDriverClass::Shell,
        input_schema: run_command_input_schema_value(),
        output_schema: run_command_output_schema_value(),
        evidence_type: Some(EvidenceType::CommandLog),
        foreground_timeout_ms: FOREGROUND_TIMEOUT_MS,
        required_resource_scopes: scopes,
        driver_config: JsonValue::Null,
        model_input_schema: None,
        injected_fields: Vec::new(),
        created_at: now.clone(),
    }
}

fn set_goal_descriptor(now: &String) -> (r: ToolDescriptor)
    ensures
        is_seed_tool(r, "tool_set_goal"@, "set_goal"@, ToolDriverClass::KernelBuiltin, 2, None, *now),
        r.description@ == ""@,
        r.model_input_schema is None,
        r.injected_fields@.len() == 0,
        texts(r.required_resource_scopes@).len() == 0,
        json_model(r.input_schema) == set_goal_input_schema(),
        json_model(r.output_schema) == set_goal_output_schema(),
{
    let scopes = Vec::new();
    proof {
        assert(texts(scopes@) =~= Seq::<Seq<char>>::empty());
    }
    ToolDescriptor {
        tool_id: String::from_str("tool_set_goal"),
        name: String::from_str("set_goal"),
        version: String::from_str("0.2.0"),
        description: String::from_str(""),
        risk_level: 2,
        driver_class: ToolDriverClass::KernelBuiltin,
        input_schema: set_goal_input_schema_value(),
        output_schema: set_goal_output_schema_value(),
        evidence_type: None,
        foreground_timeout_ms: FOREGROUND_TIMEOUT_MS,
        required_resource_scopes: scopes,
        driver_config: JsonValue::Null,
        model_input_schema: None,
        injected_fields: Vec::new(),
        created_at: now.clone(),
    }
}

fn accomplish_goal_descriptor(now: &String) -> (r: ToolDescriptor)
    ensures
        is_seed_tool(r, "tool_accomplish_goal"@, "accomplish_goal"@, ToolDriverClass::KernelBuiltin, 2, None, *now),
        r.description@ == ""@,
        r.model_input_schema is None,
        r.injected_fields@.len() == 0,
        texts(r.required_resource_scopes@).len() == 0,
        json_model(r.input_schema) == accomplish_goal_input_schema(),
        json_model(r.output_schema) == accomplish_goal_output_schema(),
{
    let scopes = Vec::new();
    proof {
        assert(texts(scopes@) =~= Seq::<Seq<char>>::empty());
    }
    ToolDescriptor {
        tool_id: String::from_str("tool_accomplish_goal"),
        name: String::from_str("accomplish_goal"),
        version: String::from_str("0.2.0"),
        description: String::from_str(""),
        risk_level: 2,
        driver_class: ToolDriverClass::KernelBuiltin,
        input_schema: accomplish_goal_input_schema_value(),
        output_schema: accomplish_goal_output_schema_value(),
        evidence_type: None,
        foreground_timeout_ms: FOREGROUND_TIMEOUT_MS,
        required_resource_scopes: scopes,
        driver_config: JsonValue::Null,
        model_input_schema: None,
        injected_fields: Vec::new(),
        created_at: now.clone(),
    }
}

fn update_checklist_descriptor(now: &String) -> (r: ToolDescriptor)
    ensures
        is_seed_tool(r, "tool_update_checklist"@, "update_checklist"@, ToolDriverClass::KernelBuiltin, 2, None, *now),
        r.description@ == ""@,
        r.model_input_schema is None,
        r.injected_fields@.len() == 0,
        texts(r.required_resource_scopes@).len() == 0,
        json_model(r.input_schema) == update_checklist_input_schema(),
        json_model(r.output_schema) == update_checklist_output_schema(),
{
    let scopes = Vec::new();
    proof {
        assert(texts(scopes@) =~= Seq::<Seq<char>>::empty());
    }
    ToolDescriptor {
        tool_id: String::from_str("tool_update_checklist"),
        name: String::from_str("update_checklist"),
        version: String::from_str("0.2.0"),
        description: String::from_str(""),
        risk_level: 2,
        driver_class: ToolDriverClass::KernelBuiltin,
        input_schema: update_checklist_input_schema_value(),
        output_schema: update_checklist_output_schema_value(),
        evidence_type: None,
        foreground_timeout_ms: FOREGROUND_TIMEOUT_MS,
        required_resource_scopes: scopes,
        driver_config: JsonValue::Null,
        model_input_schema: None,
        injected_fields: Vec::new(),
        created_at: now.clone(),
    }
}

fn record_evidence_descriptor(now: &String) -> (r: ToolDescriptor)
    ensures
        is_seed_tool(r, "tool_record_evidence"@, "record_evidence"@, ToolDriverClass::KernelBuiltin, 2, None, *now),
        r.description@ == ""@,
        r.model_input_schema is None,
        r.injected_fields@.len() == 0,
        texts(r.required_resource_scopes@).len() == 0,
        json_model(r.input_schema) == record_evidence_input_schema(),
        json_model(r.output_schema) == record_evidence_output_schema(),
{
    let scopes = Vec::new();
    proof {
        assert(texts(scopes@) =~= Seq::<Seq<char>>::empty());
    }
    ToolDescriptor {
        tool_id: String::from_str("tool_record_evidence"),
        name: String::from_str("record_evidence"),
        version: String::from_str("0.2.0"),
        description: String::from_str(""),
        risk_level: 2,
        driver_class: ToolDriverClass::KernelBuiltin,
        input_schema: record_evidence_input_schema_value(),
        output_schema: record_evidence_output_schema_value(),
        evidence_type: None,
        foreground_timeout_ms: FOREGROUND_TIMEOUT_MS,
        required_resource_scopes: scopes,
        driver_config: JsonValue::Null,
        model_input_schema: None,
        injected_fields: Vec::new(),
        created_at: now.clone(),
    }
}

fn report_supervisor_descriptor(now: &String) -> (r: ToolDescriptor)
    ensures
        is_seed_tool(r, "tool_report_supervisor"@, "report_supervisor"@, ToolDriverClass::KernelBuiltin, 1, None, *now),
        r.description@ == ""@,
        r.model_input_schema is None,
        r.injected_fields@.len() == 0,
        texts(r.required_resource_scopes@).len() == 0,
        json_model(r.input_schema) == report_supervisor_input_schema(),
        json_model(r.output_schema) == report_supervisor_output_schema(),
{
    let scopes = Vec::new();
    proof {
        assert(texts(scopes@) =~= Seq::<Seq<char>>::empty());
    }
    ToolDescriptor {
        tool_id: String::from_str("tool_report_supervisor"),
        name: String::from_str("report_supervisor"),
        version: String::from_str("0.2.0"),
        description: String::from_str(""),
        risk_level: 1,
        driver_class: ToolDriverClass::KernelBuiltin,
        input_schema: report_supervisor_input_schema_value(),
        output_schema: report_supervisor_output_schema_value(),
        evidence_type: None,
        foreground_timeout_ms: FOREGROUND_TIMEOUT_MS,
        required_resource_scopes: scopes,
        driver_config: JsonValue::Null,
        model_input_schema: None,
        injected_fields: Vec::new(),
        created_at: now.clone(),
    }
}

fn post_blackboard_descriptor(now: &String) -> (r: ToolDescriptor)
    ensures
        is_seed_tool(r, "tool_post_blackboard"@, "post_blackboard"@, ToolDriverClass::KernelBuiltin, 2, None, *now),
        r.description@ == ""@,
        r.model_input_schema is None,
        r.injected_fields@.len() == 0,
        texts(r.required_resource_scopes@).len() == 0,
        json_model(r.input_schema) == post_blackboard_input_schema(),
        json_model(r.output_schema) == post_blackboard_output_schema(),
{
    let scopes = Vec::new();
    proof {
        assert(texts(scopes@) =~= Seq::<Seq<char>>::empty());
    }
    ToolDescriptor {
        tool_id: String::from_str("tool_post_blackboard"),
        name: String::from_str("post_blackboard"),
        version: String::from_str("0.2.0"),
        description: String::from_str(""),
        risk_level: 2,
        driver_class: ToolDriverClass::KernelBuiltin,
        input_schema: post_blackboard_input_schema_value(),
        output_schema: post_blackboard_output_schema_value(),
        evidence_type: None,
        foreground_timeout_ms: FOREGROUND_TIMEOUT_MS,
        required_resource_scopes: scopes,
        driver_config: JsonValue::Null,
        model_input_schema: None,
        injected_fields: Vec::new(),
        created_at: now.clone(),
    }
}

fn ask_human_descriptor(now: &String) -> (r: ToolDescriptor)
    ensures
        is_seed_tool(r, "tool_ask_human"@, "ask_human"@, ToolDriverClass::KernelBuiltin, 3, None, *now),
        r.description@ == ""@,
        r.model_input_schema is None,
        r.injected_fields@.len() == 0,
        texts(r.required_resource_scopes@).len() == 0,
        json_model(r.input_schema) == ask_human_input_schema(),
        json_model(r.output_schema) == ask_human_output_schema(),
{
    let scopes = Vec::new();
    proof {
        assert(texts(scopes@) =~= Seq::<Seq<char>>::empty());
    }
    ToolDescriptor {
        tool_id: String::from_str("tool_ask_human"),
        name: String::from_str("ask_human"),
        version: String::from_str("0.2.0"),
        description: String::from_str(""),
        risk_level: 3,
        driver_class: ToolDriverClass::KernelBuiltin,
        input_schema: ask_human_input_schema_value(),
        output_schema: ask_human_output_schema_value(),
        evidence_type: None,
        foreground_timeout_ms: FOREGROUND_TIMEOUT_MS,
        required_resource_scopes: scopes,
        driver_config: JsonValue::Null,
        model_input_schema: None,
        injected_fields: Vec::new(),
        created_at: now.clone(),
    }
}

fn request_permissions_descriptor(now: &String) -> (r: ToolDescriptor)
    ensures
        is_seed_tool(r, "tool_request_permissions"@, "request_permissions"@, ToolDriverClass::KernelBuiltin, 1, None, *now),
        r.description@ == ""@,
        r.model_input_schema is None,
        r.injected_fields@.len() == 0,
        texts(r.required_resource_scopes@).len() == 0,
        json_model(r.input_schema) == request_permissions_input_schema(),
        json_model(r.output_schema) == request_permissions_output_schema(),
{
    let scopes = Vec::new();
    proof {
        assert(texts(scopes@) =~= Seq::<Seq<char>>::empty());
    }
    ToolDescriptor {
        tool_id: String::from_str("tool_request_permissions"),
        name: String::from_str("request_permissions"),
        version: String::from_str("0.2.0"),
        description: String::from_str(""),
        risk_level: 1,
        driver_class: ToolDriverClass::KernelBuiltin,
        input_schema: request_permissions_input_schema_value(),
        output_schema: request_permissions_output_schema_value(),
        evidence_type: None,
        foreground_timeout_ms: FOREGROUND_TIMEOUT_MS,
        required_resource_scopes: scopes,
        driver_config: JsonValue::Null,
        model_input_schema: None,
        injected_fields: Vec::new(),
        created_at: now.clone(),
    }
}

fn load_skill_descriptor(now: &String) -> (r: ToolDescriptor)
    ensures
        is_seed_tool(r, "tool_load_skill"@, "load_skill"@, ToolDriverClass::KernelBuiltin, 1, Some(EvidenceType::SourceRef), *now),
        r.description@ == "Load the full SKILL.md content for one imported skill by name."@,
        r.model_input_schema matches Some(m) && json_model(m) == load_skill_given_model_schema(),
        r.injected_fields@.len() == 0,
        texts(r.required_resource_scopes@) == seq!["skill:*"@],
        json_model(r.input_schema) == load_skill_input_schema(),
        json_model(r.output_schema) == load_skill_output_schema(),
{
    let scopes = text_list(&["skill:*"]);
    proof {
        assert(texts(scopes@) =~= seq!["skill:*"@]);
    }
    ToolDescriptor {
        tool_id: String::from_str("tool_load_skill"),
        name: String::from_str("load_skill"),
        version: String::from_str("0.2.0"),
        description: String::from_str("Load the full SKILL.md content for one imported skill by name."),
        risk_level: 1,
        driver_class: ToolDriverClass::KernelBuiltin,
        input_schema: load_skill_input_schema_value(),
        output_schema: load_skill_output_schema_value(),
        evidence_type: Some(EvidenceType::SourceRef),
        foreground_timeout_ms: FOREGROUND_TIMEOUT_MS,
        required_resource_scopes: scopes,
        driver_config: JsonValue::Null,
        model_input_schema: Some(load_skill_given_model_schema_value()),
        injected_fields: Vec::new(),
        created_at: now.clone(),
    }
}

fn read_skill_resource_descriptor(now: &String) -> (r: ToolDescriptor)
    ensures
        is_seed_tool(r, "tool_read_skill_resource"@, "read_skill_resource"@, ToolDriverClass::KernelBuiltin, 1, Some(EvidenceType::SourceRef), *now),
        r.description@ == "Read a file under one imported skill root without allowing path escape."@,
        r.model_input_schema matches Some(m) && json_model(m) == read_skill_resource_given_model_schema(),
        r.injected_fields@.len() == 0,
        texts(r.required_resource_scopes@) == seq!["skill:*"@, "skill_file:*"@],
        json_model(r.input_schema) == read_skill_resource_input_schema(),
        json_model(r.output_schema) == read_skill_resource_output_schema(),
{
    let scopes = text_list(&["skill:*", "skill_file:*"]);
    proof {
        assert(texts(scopes@) =~= seq!["skill:*"@, "skill_file:*"@]);
    }
    ToolDescriptor {
        tool_id: String::from_str("tool_read_skill_resource"),
        name: String::from_str("read_skill_resource"),
        version: String::from_str("0.2.0"),
        description: String::from_str("Read a file under one imported skill root without allowing path escape."),
        risk_level: 1,
        driver_class: ToolDriverClass::KernelBuiltin,
        input_schema: read_skill_resource_input_schema_value(),
        output_schema: read_skill_resource_output_schema_value(),
        evidence_type: Some(EvidenceType::SourceRef),
        foreground_timeout_ms: FOREGROUND_TIMEOUT_MS,
        required_resource_scopes: scopes,
        driver_config: JsonValue::Null,
        model_input_schema: Some(read_skill_resource_given_model_schema_value()),
        injected_fields: Vec::new(),
        created_at: now.clone(),
    }
}

fn submit_final_descriptor(now: &String) -> (r: ToolDescriptor)
    ensures
        is_seed_tool(r, "tool_submit_final"@, "submit_final"@, ToolDriverClass::KernelBuiltin, 2, None, *now),
        r.description@ == ""@,
        r.model_input_schema is None,
        r.injected_fields@.len() == 0,
        texts(r.required_resource_scopes@).len() == 0,
        json_model(r.input_schema) == submit_final_input_schema(),
        json_model(r.output_schema) == submit_final_output_schema(),
{
    let scopes = Vec::new();
    proof {
        assert(texts(scopes@) =~= Seq::<Seq<char>>::empty());
    }
    ToolDescriptor {
        tool_id: String::from_str("tool_submit_final"),
        name: String::from_str("submit_final"),
        version: String::from_str("0.2.0"),
        description: String::from_str(""),
        risk_level: 2,
        driver_class: ToolDriverClass::KernelBuiltin,
        input_schema: submit_final_input_schema_value(),
        output_schema: submit_final_output_schema_value(),
        evidence_type: None,
        foreground_timeout_ms: FOREGROUND_TIMEOUT_MS,
        required_resource_scopes: scopes,
        driver_config: JsonValue::Null,
        model_input_schema: None,
        injected_fields: Vec::new(),
        created_at: now.clone(),
    }
}

fn agent_control_descriptor(now: &String) -> (r: ToolDescriptor)
    ensures
        is_seed_tool(r, "tool_agent_control"@, "agent_control"@, ToolDriverClass::KernelBuiltin, 6, None, *now),
        r.description@ == ""@,
        r.model_input_schema is None,
        r.injected_fields@.len() == 0,
        texts(r.required_resource_scopes@).len() == 0,
        json_model(r.input_schema) == agent_control_input_schema(),
        json_model(r.output_schema) == agent_control_output_schema(),
{
    let scopes = Vec::new();
    proof {
        assert(texts(scopes@) =~= Seq::<Seq<char>>::empty());
    }
    ToolDescriptor {
        tool_id: String::from_str("tool_agent_control"),
        name: String::from_str("agent_control"),
        version: String::from_str("0.2.0"),
        description: String::from_str(""),
        risk_level: 6,
        driver_class: ToolDriverClass::KernelBuiltin,
        input_schema: agent_control_input_schema_value(),
        output_schema: agent_control_output_schema_value(),
        evidence_type: None,
        foreground_timeout_ms: FOREGROUND_TIMEOUT_MS,
        required_resource_scopes: scopes,
        driver_config: JsonValue::Null,
        model_input_schema: None,
        injected_fields: Vec::new(),
        created_at: now.clone(),
    }
}



/// The model metadata the core tool `name` is given, if it is one.
pub open spec fn model_metadata(name: Seq<char>) -> Option<ModelMetadata> {
    if name == "read_file"@ {
        Some(ModelMetadata {
            description: "Read a workspace file and return its exact contents plus read evidence."@,
            model_schema: read_file_model_schema(),
            injected_fields: seq![("workspace_root"@, "workspace_root"@)],
            required_resource_scopes: seq![],
        })
    } else
    if name == "write_file"@ {
        Some(ModelMetadata {
            description: "Create or fully replace one workspace file."@,
            model_schema: write_file_model_schema(),
            injected_fields: seq![("workspace_root"@, "workspace_root"@)],
            required_resource_scopes: seq![],
        })
    } else
    if name == "replace_text"@ {
        Some(ModelMetadata {
            description: "Replace exactly one occurrence of text in a workspace file."@,
            model_schema: replace_text_model_schema(),
            injected_fields: seq![("workspace_root"@, "workspace_root"@)],
            required_resource_scopes: seq![],
        })
    } else
    if name == "delete_file"@ {
        Some(ModelMetadata {
            description: "Delete one workspace file."@,
            model_schema: delete_file_model_schema(),
            injected_fields: seq![("workspace_root"@, "workspace_root"@)],
            required_resource_scopes: seq![],
        })
    } else
    if name == "run_command"@ {
        Some(ModelMetadata {
            description: "Run an allowlisted command in the workspace and capture stdout, stderr, and exit code."@,
            model_schema: run_command_model_schema(),
            injected_fields: seq![("cwd"@, "workspace_root"@)],
            required_resource_scopes: seq![],
        })
    } else
    if name == "set_goal"@ {
        Some(ModelMetadata {
            description: "Supervisor-only goal setting and direct-child retargeting."@,
            model_schema: set_goal_model_schema(),
            injected_fields: seq![],
            required_resource_scopes: seq![],
        })
    } else
    if name == "accomplish_goal"@ {
        Some(ModelMetadata {
            description: "Mark this agent's local goal accomplished before final submission."@,
            model_schema: accomplish_goal_model_schema(),
            injected_fields: seq![],
            required_resource_scopes: seq![],
        })
    } else
    if name == "update_checklist"@ {
        Some(ModelMetadata {
            description: "Replace the current task checklist with structured item states."@,
            model_schema: update_checklist_model_schema(),
            injected_fields: seq![],
            required_resource_scopes: seq![],
        })
    } else
    if name == "record_evidence"@ {
        Some(ModelMetadata {
            description: "Record evidence for a task, claim, artifact, or runtime event."@,
            model_schema: record_evidence_model_schema(),
            injected_fields: seq![],
            required_resource_scopes: seq![],
        })
    } else
    if name == "report_supervisor"@ {
        Some(ModelMetadata {
            description: "Send a concise progress, blocker, risk, or completion report to the supervisor."@,
            model_schema: report_supervisor_model_schema(),
            injected_fields: seq![],
            required_resource_scopes: seq![],
        })
    } else
    if name == "post_blackboard"@ {
        Some(ModelMetadata {
            description: "Post a scoped blackboard entry through the kernel communication plane."@,
            model_schema: post_blackboard_model_schema(),
            injected_fields: seq![],
            required_resource_scopes: seq![],
        })
    } else
    if name == "ask_human"@ {
        Some(ModelMetadata {
            description: "Ask the human for clarification, escalation, or approval through the kernel route."@,
            model_schema: ask_human_model_schema(),
            injected_fields: seq![],
            required_resource_scopes: seq![],
        })
    } else
    if name == "request_permissions"@ {
        Some(ModelMetadata {
            description: "Ask the parent agent for a turn- or session-scoped subset permission grant."@,
            model_schema: request_permissions_model_schema(),
            injected_fields: seq![],
            required_resource_scopes: seq![],
        })
    } else
    if name == "load_skill"@ {
        Some(ModelMetadata {
            description: "Load the full SKILL.md content for one imported skill by name."@,
            model_schema: load_skill_model_schema(),
            injected_fields: seq![],
            required_resource_scopes: seq!["skill:*"@],
        })
    } else
    if name == "read_skill_resource"@ {
        Some(ModelMetadata {
            description: "Read a file under one imported skill root without allowing path escape."@,
            model_schema: read_skill_resource_model_schema(),
            injected_fields: seq![],
            required_resource_scopes: seq!["skill:*"@, "skill_file:*"@],
        })
    } else
    if name == "submit_final"@ {
        Some(ModelMetadata {
            description: "Submit the structured final answer. This must be the last tool call in a session."@,
            model_schema: submit_final_model_schema(),
            injected_fields: seq![],
            required_resource_scopes: seq![],
        })
    } else
    if name == "agent_control"@ {
        Some(ModelMetadata {
            description: "Supervisor control for child agent lifecycle, status, output, hooks, permission decisions, and privileged state actions."@,
            model_schema: agent_control_model_schema(),
            injected_fields: seq![],
            required_resource_scopes: seq![],
        })
    } else {
        None
    }
}

/// Tool `d` with its model metadata: for a core tool, the description and
/// input schema the model is shown and the input fields and resource
/// scopes the runtime adds; any other tool stays as it is.
pub fn apply_core_model_metadata(d: ToolDescriptor) -> (r: ToolDescriptor)
    ensures
        with_model_metadata(d, r),
{
    if str_eq(d.name.as_str(), "read_file") {
        let injected: Vec<(String, String)> = vec![(String::from_str("workspace_root"), String::from_str("workspace_root"))];
        let scopes = Vec::new();
        proof {
            assert(pair_texts(injected@) =~= seq![("workspace_root"@, "workspace_root"@)]);
            assert(texts(scopes@) =~= seq![]);
        }
        return with_metadata(d, "Read a workspace file and return its exact contents plus read evidence.", read_file_model_schema_value(), injected, scopes);
    }
    if str_eq(d.name.as_str(), "write_file") {
        let injected: Vec<(String, String)> = vec![(String::from_str("workspace_root"), String::from_str("workspace_root"))];
        let scopes = Vec::new();
        proof {
            assert(pair_texts(injected@) =~= seq![("workspace_root"@, "workspace_root"@)]);
            assert(texts(scopes@) =~= seq![]);
        }
        return with_metadata(d, "Create or fully replace one workspace file.", write_file_model_schema_value(), injected, scopes);
    }
    if str_eq(d.name.as_str(), "replace_text") {
        let injected: Vec<(String, String)> = vec![(String::from_str("workspace_root"), String::from_str("workspace_root"))];
        let scopes = Vec::new();
        proof {
            assert(pair_texts(injected@) =~= seq![("workspace_root"@, "workspace_root"@)]);
            assert(texts(scopes@) =~= seq![]);
        }
        return with_metadata(d, "Replace exactly one occurrence of text in a workspace file.", replace_text_model_schema_value(), injected, scopes);
    }
    if str_eq(d.name.as_str(), "delete_file") {
        let injected: Vec<(String, String)> = vec![(String::from_str("workspace_root"), String::from_str("workspace_root"))];
        let scopes = Vec::new();
        proof {
            assert(pair_texts(injected@) =~= seq![("workspace_root"@, "workspace_root"@)]);
            assert(texts(scopes@) =~= seq![]);
        }
        return with_metadata(d, "Delete one workspace file.", delete_file_model_schema_value(), injected, scopes);
    }
    if str_eq(d.name.as_str(), "run_command") {
        let injected: Vec<(String, String)> = vec![(String::from_str("cwd"), String::from_str("workspace_root"))];
        let scopes = Vec::new();
        proof {
            assert(pair_texts(injected@) =~= seq![("cwd"@, "workspace_root"@)]);
            assert(texts(scopes@) =~= seq![]);
        }
        return with_metadata(d, "Run an allowlisted command in the workspace and capture stdout, stderr, and exit code.", run_command_model_schema_value(), injected, scopes);
    }
    if str_eq(d.name.as_str(), "set_goal") {
        let injected: Vec<(String, String)> = Vec::new();
        let scopes = Vec::new();
        proof {
            assert(pair_texts(injected@) =~= seq![]);
            assert(texts(scopes@) =~= seq![]);
        }
        return with_metadata(d, "Supervisor-only goal setting and direct-child retargeting.", set_goal_model_schema_value(), injected, scopes);
    }
    if str_eq(d.name.as_str(), "accomplish_goal") {
        let injected: Vec<(String, String)> = Vec::new();
        let scopes = Vec::new();
        proof {
            assert(pair_texts(injected@) =~= seq![]);
            assert(texts(scopes@) =~= seq![]);
        }
        return with_metadata(d, "Mark this agent's local goal accomplished before final submission.", accomplish_goal_model_schema_value(), injected, scopes);
    }
    if str_eq(d.name.as_str(), "update_checklist") {
        let injected: Vec<(String, String)> = Vec::new();
        let scopes = Vec::new();
        proof {
            assert(pair_texts(injected@) =~= seq![]);
            assert(texts(scopes@) =~= seq![]);
        }
        return with_metadata(d, "Replace the current task checklist with structured item states.", update_checklist_model_schema_value(), injected, scopes);
    }
    if str_eq(d.name.as_str(), "record_evidence") {
        let injected: Vec<(String, String)> = Vec::new();
        let scopes = Vec::new();
        proof {
            assert(pair_texts(injected@) =~= seq![]);
            assert(texts(scopes@) =~= seq![]);
        }
        return with_metadata(d, "Record evidence for a task, claim, artifact, or runtime event.", record_evidence_model_schema_value(), injected, scopes);
    }
    if str_eq(d.name.as_str(), "report_supervisor") {
        let injected: Vec<(String, String)> = Vec::new();
        let scopes = Vec::new();
        proof {
            assert(pair_texts(injected@) =~= seq![]);
            assert(texts(scopes@) =~= seq![]);
        }
        return with_metadata(d, "Send a concise progress, blocker, risk, or completion report to the supervisor.", report_supervisor_model_schema_value(), injected, scopes);
    }
    if str_eq(d.name.as_str(), "post_blackboard") {
        let injected: Vec<(String, String)> = Vec::new();
        let scopes = Vec::new();
        proof {
            assert(pair_texts(injected@) =~= seq![]);
            assert(texts(scopes@) =~= seq![]);
        }
        return with_metadata(d, "Post a scoped blackboard entry through the kernel communication plane.", post_blackboard_model_schema_value(), injected, scopes);
    }
    if str_eq(d.name.as_str(), "ask_human") {
        let injected: Vec<(String, String)> = Vec::new();
        let scopes = Vec::new();
        proof {
            assert(pair_texts(injected@) =~= seq![]);
            assert(texts(scopes@) =~= seq![]);
        }
        return with_metadata(d, "Ask the human for clarification, escalation, or approval through the kernel route.", ask_human_model_schema_value(), injected, scopes);
    }
    if str_eq(d.name.as_str(), "request_permissions") {
        let injected: Vec<(String, String)> = Vec::new();
        let scopes = Vec::new();
        proof {
            assert(pair_texts(injected@) =~= seq![]);
            assert(texts(scopes@) =~= seq![]);
        }
        return with_metadata(d, "Ask the parent agent for a turn- or session-scoped subset permission grant.", request_permissions_model_schema_value(), injected, scopes);
    }
    if str_eq(d.name.as_str(), "load_skill") {
        let injected: Vec<(String, String)> = Vec::new();
        let scopes = text_list(&["skill:*"]);
        proof {
            assert(pair_texts(injected@) =~= seq![]);
            assert(texts(scopes@) =~= seq!["skill:*"@]);
        }
        return with_metadata(d, "Load the full SKILL.md content for one imported skill by name.", load_skill_model_schema_value(), injected, scopes);
    }
    if str_eq(d.name.as_str(), "read_skill_resource") {
        let injected: Vec<(String, String)> = Vec::new();
        let scopes = text_list(&["skill:*", "skill_file:*"]);
        proof {
            assert(pair_texts(injected@) =~= seq![]);
            assert(texts(scopes@) =~= seq!["skill:*"@, "skill_file:*"@]);
        }
        return with_metadata(d, "Read a file under one imported skill root without allowing path escape.", read_skill_resource_model_schema_value(), injected, scopes);
    }
    if str_eq(d.name.as_str(), "submit_final") {
        let injected: Vec<(String, String)> = Vec::new();
        let scopes = Vec::new();
        proof {
            assert(pair_texts(injected@) =~= seq![]);
            assert(texts(scopes@) =~= seq![]);
        }
        return with_metadata(d, "Submit the structured final answer. This must be the last tool call in a session.", submit_final_model_schema_value(), injected, scopes);
    }
    if str_eq(d.name.as_str(), "agent_control") {
        let injected: Vec<(String, String)> = Vec::new();
        let scopes = Vec::new();
        proof {
            assert(pair_texts(injected@) =~= seq![]);
            assert(texts(scopes@) =~= seq![]);
        }
        return with_metadata(d, "Supervisor control for child agent lifecycle, status, output, hooks, permission decisions, and privileged state actions.", agent_control_model_schema_value(), injected, scopes);
    }
    d
}

/// The filesystem and shell tools of the core catalog, made at `now`,
/// before their model metadata is added: each with its input and output
/// schema.
pub fn filesystem_tool_descriptors(now: String) -> (r: Vec<ToolDescriptor>)
    ensures
        r@.len() == 5,
        is_seed_tool(r@[0], "tool_write_file"@, "write_file"@, ToolDriverClass::Filesystem, 4, Some(EvidenceType::DiffRef), now),
        is_seed_tool(r@[1], "tool_read_file"@, "read_file"@, ToolDriverClass::Filesystem, 1, Some(EvidenceType::SourceRef), now),
        is_seed_tool(r@[2], "tool_delete_file"@, "delete_file"@, ToolDriverClass::Filesystem, 4, Some(EvidenceType::DiffRef), now),
        is_seed_tool(r@[3], "tool_replace_text"@, "replace_text"@, ToolDriverClass::Filesystem, 4, Some(EvidenceType::DiffRef), now),
        is_seed_tool(r@[4], "tool_run_command"@, "run_command"@, ToolDriverClass::Shell, 4, Some(EvidenceType::CommandLog), now),
        json_model(r@[0].input_schema) == write_file_input_schema(),
        json_model(r@[0].output_schema) == write_file_output_schema(),
        json_model(r@[1].input_schema) == read_file_input_schema(),
        json_model(r@[1].output_schema) == read_file_output_schema(),
        json_model(r@[2].input_schema) == delete_file_input_schema(),
        json_model(r@[2].output_schema) == delete_file_output_schema(),
        json_model(r@[3].input_schema) == replace_text_input_schema(),
        json_model(r@[3].output_schema) == replace_text_output_schema(),
        json_model(r@[4].input_schema) == run_command_input_schema(),
        json_model(r@[4].output_schema) == run_command_output_schema(),
{
    let mut r: Vec<ToolDescriptor> = Vec::new();
    r.push(write_file_descriptor(&now));
    r.push(read_file_descriptor(&now));
    r.push(delete_file_descriptor(&now));
    r.push(replace_text_descriptor(&now));
    r.push(run_command_descriptor(&now));
    proof {
        reveal_strlit("write_file");
        reveal_strlit("read_file");
        reveal_strlit("delete_file");
        reveal_strlit("replace_text");
        reveal_strlit("run_command");
        reveal_strlit("set_goal");
        reveal_strlit("accomplish_goal");
        reveal_strlit("update_checklist");
        reveal_strlit("record_evidence");
        reveal_strlit("report_supervisor");
        reveal_strlit("post_blackboard");
        reveal_strlit("ask_human");
        reveal_strlit("request_permissions");
        reveal_strlit("load_skill");
        reveal_strlit("read_skill_resource");
        reveal_strlit("submit_final");
        reveal_strlit("agent_control");
    }
    r
}

/// The core tool catalog a fresh kernel registers, made at `now`: the
/// filesystem and shell tools, then the control-plane and skill tools,
/// each with its input and output schema and its model metadata. Its file
/// tools are `read_file`, `write_file`, `replace_text` and `delete_file`;
/// it has no image reader and no patch tool.
pub fn core_tool_descriptors(now: String) -> (r: Vec<ToolDescriptor>)
    ensures
        r@.len() == 17,
        is_seed_tool(r@[0], "tool_write_file"@, "write_file"@, ToolDriverClass::Filesystem, 4, Some(EvidenceType::DiffRef), now),
        is_seed_tool(r@[1], "tool_read_file"@, "read_file"@, ToolDriverClass::Filesystem, 1, Some(EvidenceType::SourceRef), now),
        is_seed_tool(r@[2], "tool_delete_file"@, "delete_file"@, ToolDriverClass::Filesystem, 4, Some(EvidenceType::DiffRef), now),
        is_seed_tool(r@[3], "tool_replace_text"@, "replace_text"@, ToolDriverClass::Filesystem, 4, Some(EvidenceType::DiffRef), now),
        is_seed_tool(r@[4], "tool_run_command"@, "run_command"@, ToolDriverClass::Shell, 4, Some(EvidenceType::CommandLog), now),
        is_seed_tool(r@[5], "tool_set_goal"@, "set_goal"@, ToolDriverClass::KernelBuiltin, 2, None, now),
        is_seed_tool(r@[6], "tool_accomplish_goal"@, "accomplish_goal"@, ToolDriverClass::KernelBuiltin, 2, None, now),
        is_seed_tool(r@[7], "tool_update_checklist"@, "update_checklist"@, ToolDriverClass::KernelBuiltin, 2, None, now),
        is_seed_tool(r@[8], "tool_record_evidence"@, "record_evidence"@, ToolDriverClass::KernelBuiltin, 2, None, now),
        is_seed_tool(r@[9], "tool_report_supervisor"@, "report_supervisor"@, ToolDriverClass::KernelBuiltin, 1, None, now),
        is_seed_tool(r@[10], "tool_post_blackboard"@, "post_blackboard"@, ToolDriverClass::KernelBuiltin, 2, None, now),
        is_seed_tool(r@[11], "tool_ask_human"@, "ask_human"@, ToolDriverClass::KernelBuiltin, 3, None, now),
        is_seed_tool(r@[12], "tool_request_permissions"@, "request_permissions"@, ToolDriverClass::KernelBuiltin, 1, None, now),
        is_seed_tool(r@[13], "tool_load_skill"@, "load_skill"@, ToolDriverClass::KernelBuiltin, 1, Some(EvidenceType::SourceRef), now),
        is_seed_tool(r@[14], "tool_read_skill_resource"@, "read_skill_resource"@, ToolDriverClass::KernelBuiltin, 1, Some(EvidenceType::SourceRef), now),
        is_seed_tool(r@[15], "tool_submit_final"@, "submit_final"@, ToolDriverClass::KernelBuiltin, 2, None, now),
        is_seed_tool(r@[16], "tool_agent_control"@, "agent_control"@, ToolDriverClass::KernelBuiltin, 6, None, now),
        forall|i: int| 0 <= i < r@.len() ==> #[trigger] model_metadata(r@[i].name@) is Some && has_model_metadata(r@[i]),
        json_model(r@[0].input_schema) == write_file_input_schema(),
        json_model(r@[0].output_schema) == write_file_output_schema(),
        json_model(r@[1].input_schema) == read_file_input_schema(),
        json_model(r@[1].output_schema) == read_file_output_schema(),
        json_model(r@[2].input_schema) == delete_file_input_schema(),
        json_model(r@[2].output_schema) == delete_file_output_schema(),
        json_model(r@[3].input_schema) == replace_text_input_schema(),
        json_model(r@[3].output_schema) == replace_text_output_schema(),
        json_model(r@[4].input_schema) == run_command_input_schema(),
        json_model(r@[4].output_schema) == run_command_output_schema(),
        json_model(r@[5].input_schema) == set_goal_input_schema(),
        json_model(r@[5].output_schema) == set_goal_output_schema(),
        json_model(r@[6].input_schema) == accomplish_goal_input_schema(),
        json_model(r@[6].output_schema) == accomplish_goal_output_schema(),
        json_model(r@[7].input_schema) == update_checklist_input_schema(),
        json_model(r@[7].output_schema) == update_checklist_output_schema(),
        json_model(r@[8].input_schema) == record_evidence_input_schema(),
        json_model(r@[8].output_schema) == record_evidence_output_schema(),
        json_model(r@[9].input_schema) == report_supervisor_input_schema(),
        json_model(r@[9].output_schema) == report_supervisor_output_schema(),
        json_model(r@[10].input_schema) == post_blackboard_input_schema(),
        json_model(r@[10].output_schema) == post_blackboard_output_schema(),
        json_model(r@[11].input_schema) == ask_human_input_schema(),
        json_model(r@[11].output_schema) == ask_human_output_schema(),
        json_model(r@[12].input_schema) == request_permissions_input_schema(),
        json_model(r@[12].output_schema) == request_permissions_output_schema(),
        json_model(r@[13].input_schema) == load_skill_input_schema(),
        json_model(r@[13].output_schema) == load_skill_output_schema(),
        json_model(r@[14].input_schema) == read_skill_resource_input_schema(),
        json_model(r@[14].output_schema) == read_skill_resource_output_schema(),
        json_model(r@[15].input_schema) == submit_final_input_schema(),
        json_model(r@[15].output_schema) == submit_final_output_schema(),
        json_model(r@[16].input_schema) == agent_control_input_schema(),
        json_model(r@[16].output_schema) == agent_control_output_schema(),
{
    let mut r: Vec<ToolDescriptor> = Vec::new();
    r.push(apply_core_model_metadata(write_file_descriptor(&now)));
    r.push(apply_core_model_metadata(read_file_descriptor(&now)));
    r.push(apply_core_model_metadata(delete_file_descriptor(&now)));
    r.push(apply_core_model_metadata(replace_text_descriptor(&now)));
    r.push(apply_core_model_metadata(run_command_descriptor(&now)));
    r.push(apply_core_model_metadata(set_goal_descriptor(&now)));
    r.push(apply_core_model_metadata(accomplish_goal_descriptor(&now)));
    r.push(apply_core_model_metadata(update_checklist_descriptor(&now)));
    r.push(apply_core_model_metadata(record_evidence_descriptor(&now)));
    r.push(apply_core_model_metadata(report_supervisor_descriptor(&now)));
    r.push(apply_core_model_metadata(post_blackboard_descriptor(&now)));
    r.push(apply_core_model_metadata(ask_human_descriptor(&now)));
    r.push(apply_core_model_metadata(request_permissions_descriptor(&now)));
    r.push(apply_core_model_metadata(load_skill_descriptor(&now)));
    r.push(apply_core_model_metadata(read_skill_resource_descriptor(&now)));
    r.push(apply_core_model_metadata(submit_final_descriptor(&now)));
    r.push(apply_core_model_metadata(agent_control_descriptor(&now)));
    proof {
        reveal_strlit("write_file");
        reveal_strlit("read_file");
        reveal_strlit("delete_file");
        reveal_strlit("replace_text");
        reveal_strlit("run_command");
        reveal_strlit("set_goal");
        reveal_strlit("accomplish_goal");
        reveal_strlit("update_checklist");
        reveal_strlit("record_evidence");
        reveal_strlit("report_supervisor");
        reveal_strlit("post_blackboard");
        reveal_strlit("ask_human");
        reveal_strlit("request_permissions");
        reveal_strlit("load_skill");
        reveal_strlit("read_skill_resource");
        reveal_strlit("submit_final");
        reveal_strlit("agent_control");
    }
    r
}

} // verus!
