//! The requests the CLI and the MCP tools send to the Orion server: method,
//! path (with query string) and JSON body, for every operation.
use vstd::prelude::*;
use serde_json::Value;
use crate::json::{
    boolean, integer, json_content, null, set_field, string, with_field, JsonValue,
};
use crate::strings::{int_decimal, push_i64, push_str};
use crate::text::{build_query_string, ends_with, join_with, lemma_parts_push, number_value, parts_of, query_parts, query_string, query_text};

verus! {

/// HTTP methods the client uses.
#[derive(Clone, Copy, PartialEq, Eq, Debug)]
pub enum Method {
    Get,
    Post,
    Put,
    Patch,
    Delete,
}

/// How the response of a request is read: as a JSON document, as plain
/// text, or only checked for success.
#[derive(Clone, Copy, PartialEq, Eq, Debug)]
pub enum ResponseKind {
    Json,
    Text,
    Nothing,
}

/// One request to the server.
#[derive(Debug)]
pub struct ApiRequest {
    pub method: Method,
    pub path: String,
    pub body: Option<Value>,
    pub response: ResponseKind,
}

/// The content of a request body, if any.
pub open spec fn body_content(b: Option<Value>) -> Option<JsonValue> {
    match b {
        Some(v) => Some(json_content(v)),
        None => None,
    }
}

/// Whether `r` is the request (method, path, body, response) described.
pub open spec fn is_request(
    r: ApiRequest,
    method: Method,
    path: Seq<char>,
    body: Option<JsonValue>,
    response: ResponseKind,
) -> bool {
    &&& r.method == method
    &&& r.path@ == path
    &&& body_content(r.body) == body
    &&& r.response == response
}

/// The admin resources that share the same set of endpoints.
#[derive(Clone, Copy, PartialEq, Eq, Debug)]
pub enum Resource {
    Workflows,
    Rules,
    Channels,
    Connectors,
}

/// The collection path of a resource.
pub open spec fn collection(r: Resource) -> Seq<char> {
    match r {
        Resource::Workflows => "/api/v1/admin/workflows"@,
        Resource::Rules => "/api/v1/admin/rules"@,
        Resource::Channels => "/api/v1/admin/channels"@,
        Resource::Connectors => "/api/v1/admin/connectors"@,
    }
}

/// The path of one item of a resource.
pub open spec fn item_path(r: Resource, id: Seq<char>) -> Seq<char> {
    collection(r) + seq!['/'] + id
}

/// A one-field object `{key: value}`.
pub open spec fn object1(key: Seq<char>, value: JsonValue) -> JsonValue {
    with_field(JsonValue::Null, key, value)
}

/// The body of a test or data request: `{"data": payload}` plus
/// `"metadata"` when given.
pub open spec fn data_body_content(payload: JsonValue, metadata: Option<JsonValue>) -> JsonValue {
    match metadata {
        Some(m) => with_field(object1("data"@, payload), "metadata"@, m),
        None => object1("data"@, payload),
    }
}

/// The collection path of a resource as a string.
pub fn collection_path(r: Resource) -> (s: String)
    ensures
        s@ == collection(r),
{
    match r {
        Resource::Workflows => String::from_str("/api/v1/admin/workflows"),
        Resource::Rules => String::from_str("/api/v1/admin/rules"),
        Resource::Channels => String::from_str("/api/v1/admin/channels"),
        Resource::Connectors => String::from_str("/api/v1/admin/connectors"),
    }
}

/// `prefix` followed by `rest`.
pub fn concat(prefix: &str, rest: &str) -> (s: String)
    ensures
        s@ == prefix@ + rest@,
{
    let mut s = prefix.to_owned();
    push_str(&mut s, rest);
    s
}

/// `prefix`, then `middle`, then `suffix`.
pub fn concat3(prefix: &str, middle: &str, suffix: &str) -> (s: String)
    ensures
        s@ == prefix@ + middle@ + suffix@,
{
    let mut s = prefix.to_owned();
    push_str(&mut s, middle);
    push_str(&mut s, suffix);
    s
}

/// The path of one item of a resource, as a string.
pub fn item(r: Resource, id: &str) -> (s: String)
    ensures
        s@ == item_path(r, id@),
{
    let mut s = collection_path(r);
    s.push('/');
    push_str(&mut s, id);
    s
}

/// The path of an item's sub-resource (`item + suffix`).
pub fn item_sub(r: Resource, id: &str, suffix: &str) -> (s: String)
    ensures
        s@ == item_path(r, id@) + suffix@,
{
    let mut s = item(r, id);
    push_str(&mut s, suffix);
    s
}

/// The decimal text of an optional number (`n.map(|n| n.to_string())`).
pub fn opt_number(n: Option<i64>) -> (s: Option<String>)
    ensures
        match n {
            Some(v) => s is Some && s->Some_0@ == int_decimal(v as int),
            None => s is None,
        },
{
    match n {
        Some(v) => {
            let mut t = String::new();
            push_i64(&mut t, v);
            Some(t)
        },
        None => None,
    }
}

/// Builds `{key: value}`.
pub fn object_with(key: &str, value: Value) -> (v: Value)
    ensures
        json_content(v) == object1(key@, json_content(value)),
{
    let mut v = null();
    set_field(&mut v, key, value);
    v
}

/// The body `{"status": status}`.
pub fn status_body(status: &str) -> (v: Value)
    ensures
        json_content(v) == object1("status"@, JsonValue::Str(status@)),
{
    object_with("status", string(status.to_owned()))
}

/// The body `{"rollout_percentage": percentage}`.
pub fn rollout_body(percentage: i64) -> (v: Value)
    ensures
        json_content(v) == object1("rollout_percentage"@, JsonValue::Int(percentage as int)),
{
    object_with("rollout_percentage", integer(percentage))
}

/// The body `{"enabled": enabled}`.
pub fn enabled_body(enabled: bool) -> (v: Value)
    ensures
        json_content(v) == object1("enabled"@, JsonValue::Bool(enabled)),
{
    object_with("enabled", boolean(enabled))
}

/// The body `{"data": payload}` with `"metadata"` when given.
pub fn data_body(payload: Value, metadata: Option<Value>) -> (v: Value)
    ensures
        json_content(v) == data_body_content(
            json_content(payload),
            match metadata {
                Some(m) => Some(json_content(m)),
                None => None,
            },
        ),
{
    let mut v = object_with("data", payload);
    match metadata {
        Some(m) => {
            set_field(&mut v, "metadata", m);
        },
        None => {},
    }
    v
}

fn request(method: Method, path: String, body: Option<Value>, response: ResponseKind) -> (r: ApiRequest)
    ensures
        r.method == method,
        r.path == path,
        r.body == body,
        r.response == response,
{
    ApiRequest { method, path, body, response }
}

/// GET on a path, reading JSON.
pub fn get_json(path: String) -> (r: ApiRequest)
    ensures
        is_request(r, Method::Get, path@, None, ResponseKind::Json),
{
    request(Method::Get, path, None, ResponseKind::Json)
}

/// POST of a JSON body, reading JSON.
pub fn post_json(path: String, body: Value) -> (r: ApiRequest)
    ensures
        is_request(r, Method::Post, path@, Some(json_content(body)), ResponseKind::Json),
{
    request(Method::Post, path, Some(body), ResponseKind::Json)
}

/// POST without a body, reading JSON.
pub fn post_empty(path: String) -> (r: ApiRequest)
    ensures
        is_request(r, Method::Post, path@, None, ResponseKind::Json),
{
    request(Method::Post, path, None, ResponseKind::Json)
}

/// The list request of a resource with its filters.
pub fn list_request(r: Resource, params: &[(&str, Option<String>)]) -> (req: ApiRequest)
    ensures
        is_request(req, Method::Get, collection(r) + query_string(params@), None, ResponseKind::Json),
{
    let qs = build_query_string(params);
    let mut path = collection_path(r);
    push_str(&mut path, qs.as_str());
    get_json(path)
}

/// The export request of a resource with its filters.
pub fn export_request(r: Resource, params: &[(&str, Option<String>)]) -> (req: ApiRequest)
    ensures
        is_request(
            req,
            Method::Get,
            collection(r) + "/export"@ + query_string(params@),
            None,
            ResponseKind::Json,
        ),
{
    let qs = build_query_string(params);
    let mut path = collection_path(r);
    push_str(&mut path, "/export");
    push_str(&mut path, qs.as_str());
    get_json(path)
}

/// GET of one item.
pub fn get_request(r: Resource, id: &str) -> (req: ApiRequest)
    ensures
        is_request(req, Method::Get, item_path(r, id@), None, ResponseKind::Json),
{
    get_json(item(r, id))
}

/// POST creating an item from a JSON definition.
pub fn create_request(r: Resource, body: Value) -> (req: ApiRequest)
    ensures
        is_request(req, Method::Post, collection(r), Some(json_content(body)), ResponseKind::Json),
{
    post_json(collection_path(r), body)
}

/// PUT replacing an item's definition.
pub fn update_request(r: Resource, id: &str, body: Value) -> (req: ApiRequest)
    ensures
        is_request(
            req,
            Method::Put,
            item_path(r, id@),
            Some(json_content(body)),
            ResponseKind::Json,
        ),
{
    request(Method::Put, item(r, id), Some(body), ResponseKind::Json)
}

/// DELETE of an item.
pub fn delete_request(r: Resource, id: &str) -> (req: ApiRequest)
    ensures
        is_request(req, Method::Delete, item_path(r, id@), None, ResponseKind::Nothing),
{
    request(Method::Delete, item(r, id), None, ResponseKind::Nothing)
}

/// PATCH of an item's lifecycle status.
pub fn status_request(r: Resource, id: &str, status: &str) -> (req: ApiRequest)
    ensures
        is_request(
            req,
            Method::Patch,
            item_path(r, id@) + "/status"@,
            Some(object1("status"@, JsonValue::Str(status@))),
            ResponseKind::Json,
        ),
{
    request(Method::Patch, item_sub(r, id, "/status"), Some(status_body(status)), ResponseKind::Json)
}

/// PATCH of an item's rollout percentage.
pub fn rollout_request(r: Resource, id: &str, percentage: i64) -> (req: ApiRequest)
    ensures
        is_request(
            req,
            Method::Patch,
            item_path(r, id@) + "/rollout"@,
            Some(object1("rollout_percentage"@, JsonValue::Int(percentage as int))),
            ResponseKind::Json,
        ),
{
    request(
        Method::Patch,
        item_sub(r, id, "/rollout"),
        Some(rollout_body(percentage)),
        ResponseKind::Json,
    )
}

/// GET of an item's version history.
pub fn versions_request(r: Resource, id: &str) -> (req: ApiRequest)
    ensures
        is_request(req, Method::Get, item_path(r, id@) + "/versions"@, None, ResponseKind::Json),
{
    get_json(item_sub(r, id, "/versions"))
}

/// POST creating a new draft version of an item.
pub fn new_version_request(r: Resource, id: &str) -> (req: ApiRequest)
    ensures
        is_request(req, Method::Post, item_path(r, id@) + "/versions"@, None, ResponseKind::Json),
{
    post_empty(item_sub(r, id, "/versions"))
}

/// POST of a dry-run test of an item with a payload and optional metadata.
pub fn test_request(r: Resource, id: &str, payload: Value, metadata: Option<Value>) -> (req: ApiRequest)
    ensures
        is_request(
            req,
            Method::Post,
            item_path(r, id@) + "/test"@,
            Some(
                data_body_content(
                    json_content(payload),
                    match metadata {
                        Some(m) => Some(json_content(m)),
                        None => None,
                    },
                ),
            ),
            ResponseKind::Json,
        ),
{
    post_json(item_sub(r, id, "/test"), data_body(payload, metadata))
}

/// POST validating a definition without creating it.
pub fn validate_request(r: Resource, body: Value) -> (req: ApiRequest)
    ensures
        is_request(
            req,
            Method::Post,
            collection(r) + "/validate"@,
            Some(json_content(body)),
            ResponseKind::Json,
        ),
{
    post_json(concat(collection_path(r).as_str(), "/validate"), body)
}

/// The path of a bulk import, with `?dry_run=true` for a server-side dry run.
pub open spec fn import_path(r: Resource, dry_run: bool) -> Seq<char> {
    if dry_run {
        collection(r) + "/import"@ + "?dry_run=true"@
    } else {
        collection(r) + "/import"@
    }
}

/// POST of a bulk import.
pub fn import_request(r: Resource, items: Value, dry_run: bool) -> (req: ApiRequest)
    ensures
        is_request(
            req,
            Method::Post,
            import_path(r, dry_run),
            Some(json_content(items)),
            ResponseKind::Json,
        ),
{
    let mut path = collection_path(r);
    push_str(&mut path, "/import");
    if dry_run {
        push_str(&mut path, "?dry_run=true");
    }
    post_json(path, items)
}

/// PUT toggling a connector on or off.
pub fn toggle_connector_request(id: &str, enabled: bool) -> (req: ApiRequest)
    ensures
        is_request(
            req,
            Method::Put,
            item_path(Resource::Connectors, id@),
            Some(object1("enabled"@, JsonValue::Bool(enabled))),
            ResponseKind::Json,
        ),
{
    request(Method::Put, item(Resource::Connectors, id), Some(enabled_body(enabled)), ResponseKind::Json)
}

/// GET of the circuit breaker states.
pub fn circuit_breakers_request() -> (req: ApiRequest)
    ensures
        is_request(
            req,
            Method::Get,
            "/api/v1/admin/connectors/circuit-breakers"@,
            None,
            ResponseKind::Json,
        ),
{
    get_json(String::from_str("/api/v1/admin/connectors/circuit-breakers"))
}

/// POST resetting one circuit breaker.
pub fn reset_breaker_request(key: &str) -> (req: ApiRequest)
    ensures
        is_request(
            req,
            Method::Post,
            "/api/v1/admin/connectors/circuit-breakers/"@ + key@,
            None,
            ResponseKind::Json,
        ),
{
    post_empty(concat("/api/v1/admin/connectors/circuit-breakers/", key))
}

/// POST sending data to a channel synchronously.
pub fn send_sync_request(channel: &str, body: Value) -> (req: ApiRequest)
    ensures
        is_request(
            req,
            Method::Post,
            "/api/v1/data/"@ + channel@,
            Some(json_content(body)),
            ResponseKind::Json,
        ),
{
    post_json(concat("/api/v1/data/", channel), body)
}

/// POST submitting data to a channel for asynchronous processing.
pub fn send_async_request(channel: &str, body: Value) -> (req: ApiRequest)
    ensures
        is_request(
            req,
            Method::Post,
            "/api/v1/data/"@ + channel@ + "/async"@,
            Some(json_content(body)),
            ResponseKind::Json,
        ),
{
    post_json(concat3("/api/v1/data/", channel, "/async"), body)
}

/// GET of the trace list with its filters.
pub fn traces_list_request(params: &[(&str, Option<String>)]) -> (req: ApiRequest)
    ensures
        is_request(
            req,
            Method::Get,
            "/api/v1/data/traces"@ + query_string(params@),
            None,
            ResponseKind::Json,
        ),
{
    let qs = build_query_string(params);
    get_json(concat("/api/v1/data/traces", qs.as_str()))
}

/// GET of one trace.
pub fn trace_request(id: &str) -> (req: ApiRequest)
    ensures
        is_request(req, Method::Get, "/api/v1/data/traces/"@ + id@, None, ResponseKind::Json),
{
    get_json(concat("/api/v1/data/traces/", id))
}

/// GET of one asynchronous job.
pub fn job_request(id: &str) -> (req: ApiRequest)
    ensures
        is_request(req, Method::Get, "/api/v1/data/jobs/"@ + id@, None, ResponseKind::Json),
{
    get_json(concat("/api/v1/data/jobs/", id))
}

/// GET of the server health.
pub fn health_request() -> (req: ApiRequest)
    ensures
        is_request(req, Method::Get, "/health"@, None, ResponseKind::Json),
{
    get_json(String::from_str("/health"))
}

/// GET of the Prometheus metrics, read as text.
pub fn metrics_request() -> (req: ApiRequest)
    ensures
        is_request(req, Method::Get, "/metrics"@, None, ResponseKind::Text),
{
    request(Method::Get, String::from_str("/metrics"), None, ResponseKind::Text)
}

/// GET of the engine status.
pub fn engine_status_request() -> (req: ApiRequest)
    ensures
        is_request(req, Method::Get, "/api/v1/admin/engine/status"@, None, ResponseKind::Json),
{
    get_json(String::from_str("/api/v1/admin/engine/status"))
}

/// POST reloading the engine.
pub fn engine_reload_request() -> (req: ApiRequest)
    ensures
        is_request(req, Method::Post, "/api/v1/admin/engine/reload"@, None, ResponseKind::Json),
{
    post_empty(String::from_str("/api/v1/admin/engine/reload"))
}

/// GET of the registered workflow functions.
pub fn functions_request() -> (req: ApiRequest)
    ensures
        is_request(req, Method::Get, "/api/v1/admin/functions"@, None, ResponseKind::Json),
{
    get_json(String::from_str("/api/v1/admin/functions"))
}

/// The paging query `?limit=L&offset=O`, each part present only when given.
pub open spec fn paging_query(limit: Option<i64>, offset: Option<i64>) -> Seq<char> {
    match (limit, offset) {
        (None, None) => Seq::<char>::empty(),
        (Some(l), None) => "?limit="@ + int_decimal(l as int),
        (None, Some(o)) => "?offset="@ + int_decimal(o as int),
        (Some(l), Some(o)) => "?limit="@ + int_decimal(l as int) + "&offset="@ + int_decimal(
            o as int,
        ),
    }
}

/// GET of the audit log with its paging parameters.
pub fn audit_logs_request(limit: Option<i64>, offset: Option<i64>) -> (req: ApiRequest)
    ensures
        is_request(
            req,
            Method::Get,
            "/api/v1/admin/audit-logs"@ + paging_query(limit, offset),
            None,
            ResponseKind::Json,
        ),
{
    let params = [("limit", opt_number(limit)), ("offset", opt_number(offset))];
    let qs = build_query_string(&params);
    proof {
        reveal_strlit("limit");
        reveal_strlit("offset");
        reveal_strlit("?limit=");
        reveal_strlit("?offset=");
        reveal_strlit("&offset=");
        let ps = params@;
        assert(ps.drop_last().drop_last() =~= Seq::<(&str, Option<String>)>::empty());
        assert(ps.drop_last().len() == 1);
        assert(ps.drop_last().last() == ps[0]);
        assert(query_parts(ps.drop_last().drop_last()) =~= Seq::<Seq<char>>::empty());
        let first = query_parts(ps.drop_last());
        let parts = query_parts(ps);
        match limit {
            Some(l) => {
                assert(first =~= seq!["limit"@ + seq!['='] + int_decimal(l as int)]);
            },
            None => {
                assert(first =~= Seq::<Seq<char>>::empty());
            },
        }
        match offset {
            Some(o) => {
                assert(parts =~= first.push("offset"@ + seq!['='] + int_decimal(o as int)));
                assert(parts.drop_last() =~= first);
            },
            None => {
                assert(parts =~= first);
            },
        }
        if parts.len() == 2 {
            assert(join_with(parts.drop_last(), '&') == parts[0]);
            assert(join_with(parts, '&') =~= parts[0] + seq!['&'] + parts[1]);
        } else if parts.len() == 1 {
            assert(join_with(parts, '&') == parts[0]);
        }
        assert(qs@ =~= paging_query(limit, offset));
    }
    get_json(concat("/api/v1/admin/audit-logs", qs.as_str()))
}

/// POST creating a database backup.
pub fn backup_create_request() -> (req: ApiRequest)
    ensures
        is_request(req, Method::Post, "/api/v1/admin/backups"@, None, ResponseKind::Json),
{
    post_empty(String::from_str("/api/v1/admin/backups"))
}

/// GET of the existing backups.
pub fn backups_list_request() -> (req: ApiRequest)
    ensures
        is_request(req, Method::Get, "/api/v1/admin/backups"@, None, ResponseKind::Json),
{
    get_json(String::from_str("/api/v1/admin/backups"))
}

/// The path of one item is its resource's collection path followed by "/"
/// and the item's id, and every collection lies under "/api/v1/admin/".
pub proof fn law_item_path(r: Resource, id: Seq<char>)
    ensures
        item_path(r, id).subrange(0, collection(r).len() as int) == collection(r),
        ends_with(item_path(r, id), seq!['/'] + id),
        item_path(r, id).len() == collection(r).len() + 1 + id.len(),
        collection(r).subrange(0, 14) == "/api/v1/admin/"@,
{
    reveal_strlit("/api/v1/admin/workflows");
    reveal_strlit("/api/v1/admin/rules");
    reveal_strlit("/api/v1/admin/channels");
    reveal_strlit("/api/v1/admin/connectors");
    reveal_strlit("/api/v1/admin/");
    let p = item_path(r, id);
    assert(p.subrange(0, collection(r).len() as int) =~= collection(r));
    assert(p.subrange(p.len() - (id.len() + 1), p.len() as int) =~= seq!['/'] + id);
    assert(collection(r).subrange(0, 14) =~= "/api/v1/admin/"@);
}

/// The paging query of the audit log is the query string of its two
/// parameters, limit then offset, each present only when given.
pub proof fn law_paging_query(limit: Option<i64>, offset: Option<i64>)
    ensures
        paging_query(limit, offset) == query_text(
            seq![("limit"@, number_value(limit)), ("offset"@, number_value(offset))],
        ),
{
    reveal_strlit("limit");
    reveal_strlit("offset");
    reveal_strlit("?limit=");
    reveal_strlit("?offset=");
    reveal_strlit("&offset=");
    let ps = seq![("limit"@, number_value(limit)), ("offset"@, number_value(offset))];
    let e = Seq::<(Seq<char>, Option<Seq<char>>)>::empty();
    assert(ps =~= e.push(ps[0]).push(ps[1]));
    lemma_parts_push(e, ps[0]);
    lemma_parts_push(e.push(ps[0]), ps[1]);
    assert(parts_of(e) =~= Seq::<Seq<char>>::empty());
    let parts = parts_of(ps);
    match (limit, offset) {
        (None, None) => {},
        (Some(l), None) => {
            assert(parts =~= seq!["limit"@ + seq!['='] + int_decimal(l as int)]);
            assert(query_text(ps) =~= paging_query(limit, offset));
        },
        (None, Some(o)) => {
            assert(parts =~= seq!["offset"@ + seq!['='] + int_decimal(o as int)]);
            assert(query_text(ps) =~= paging_query(limit, offset));
        },
        (Some(l), Some(o)) => {
            assert(parts =~= seq!["limit"@ + seq!['='] + int_decimal(l as int), "offset"@ + seq!['='] + int_decimal(o as int)]);
            assert(parts.drop_last() =~= seq!["limit"@ + seq!['='] + int_decimal(l as int)]);
            assert(join_with(parts.drop_last(), '&') == parts[0]);
            assert(join_with(parts, '&') == join_with(parts.drop_last(), '&') + seq!['&'] + parts.last());
            assert(query_text(ps) =~= paging_query(limit, offset));
        },
    }
}

} // verus!
