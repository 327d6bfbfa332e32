//! The MCP tools: each tool's parameters, the request it sends, and the
//! text it replies with. Sending the request is left to the server loop.
use vstd::prelude::*;
use serde_json::Value;
use crate::api::{
    data_body, data_body_content, import_path, import_request, is_request, ApiRequest, Method,
    Resource, ResponseKind,
};
use crate::json::{field_opt, get_field, is_null, json_content, parse_json, pretty_of, pretty_text, serde_json_parse, JsonValue};
use crate::strings::push_str;

pub mod workflows;
pub mod rules;
pub mod channels;
pub mod connectors;
pub mod data;
pub mod traces;
pub mod audit_logs;

verus! {

/// The message for a parameter that is not valid JSON.
pub open spec fn invalid_json_message(label: Seq<char>, err: Seq<char>) -> Seq<char> {
    "Invalid "@ + label + " JSON: "@ + err
}

/// Parses a JSON parameter; a text that does not parse is an error naming
/// the parameter (`label`) and the parser's message.
pub fn parse_param(text: &str, label: &str) -> (res: Result<Value, String>)
    ensures
        match serde_json_parse(text@) {
            Ok(c) => res is Ok && json_content(res->Ok_0) == c,
            Err(e) => res is Err && res->Err_0@ == invalid_json_message(label@, e),
        },
{
    match parse_json(text) {
        Ok(v) => Ok(v),
        Err(e) => {
            let mut m = String::from_str("Invalid ");
            push_str(&mut m, label);
            push_str(&mut m, " JSON: ");
            push_str(&mut m, e.as_str());
            Err(m)
        },
    }
}

/// The reply of most tools: the response as pretty JSON.
pub fn reply(resp: &Value) -> (text: String)
    ensures
        text@ == pretty_of(json_content(*resp)),
{
    pretty_text(resp)
}

/// The part of an export response a tool replies with: its `data`, or the
/// whole response when there is none.
pub open spec fn export_part(c: JsonValue) -> JsonValue {
    match field_opt(c, "data"@) {
        Some(d) => d,
        None => c,
    }
}

/// The reply of the export tools: the exported items as pretty JSON.
pub fn export_reply(resp: &Value) -> (text: String)
    ensures
        text@ == pretty_of(export_part(json_content(*resp))),
{
    match get_field(resp, "data") {
        Some(d) => pretty_text(d),
        None => pretty_text(resp),
    }
}

/// The reply of the delete tools: "<Kind> <id> deleted successfully".
pub fn deleted_reply(kind: &str, id: &str) -> (text: String)
    ensures
        text@ == kind@ + " "@ + id@ + " deleted successfully"@,
{
    let mut t = kind.to_owned();
    push_str(&mut t, " ");
    push_str(&mut t, id);
    push_str(&mut t, " deleted successfully");
    t
}

/// The body of a test or data request built from JSON parameters: the
/// payload (labelled `label` in errors) under `data`, the metadata under
/// `metadata` when given.
pub open spec fn data_params_body(data: Seq<char>, metadata: Option<Seq<char>>, label: Seq<char>) -> Result<JsonValue, Seq<char>> {
    match serde_json_parse(data) {
        Err(e) => Err(invalid_json_message(label, e)),
        Ok(d) => match metadata {
            None => Ok(data_body_content(d, None)),
            Some(m) => match serde_json_parse(m) {
                Err(e) => Err(invalid_json_message("metadata"@, e)),
                Ok(mv) => Ok(data_body_content(d, Some(mv))),
            },
        },
    }
}

/// Builds the body of a test or data request from its JSON parameters.
pub fn data_params(data: &str, metadata: Option<&str>, label: &str) -> (res: Result<Value, String>)
    ensures
        match data_params_body(
            data@,
            match metadata {
                Some(m) => Some(m@),
                None => None,
            },
            label@,
        ) {
            Ok(b) => res is Ok && json_content(res->Ok_0) == b,
            Err(e) => res is Err && res->Err_0@ == e,
        },
{
    let d = parse_param(data, label)?;
    match metadata {
        None => Ok(data_body(d, None)),
        Some(m) => {
            let mv = parse_param(m, "metadata")?;
            Ok(data_body(d, Some(mv)))
        },
    }
}

/// The outcome of planning a bulk import from a JSON parameter.
pub open spec fn import_plan_spec(r: Resource, label: Seq<char>, items: Seq<char>, dry_run: bool, req: Result<ApiRequest, String>) -> bool {
    match serde_json_parse(items) {
        Err(e) => req is Err && req->Err_0@ == invalid_json_message(label, e),
        Ok(c) => if c is Array {
            req is Ok && is_request(req->Ok_0, Method::Post, import_path(r, dry_run), Some(c), ResponseKind::Json)
        } else {
            req is Err && req->Err_0@ == "Import data must be a JSON array of "@ + label + "s"@
        },
    }
}

/// Plans a bulk import: the items must parse and form an array; with
/// `dry_run` the server only validates them.
pub fn import_plan(r: Resource, label: &str, items: &str, dry_run: bool) -> (req: Result<ApiRequest, String>)
    ensures
        import_plan_spec(r, label@, items@, dry_run, req),
{
    let v = parse_param(items, label)?;
    if crate::json::as_array(&v).is_none() {
        let mut m = String::from_str("Import data must be a JSON array of ");
        push_str(&mut m, label);
        push_str(&mut m, "s");
        return Err(m);
    }
    Ok(import_request(r, v, dry_run))
}

} // verus!
