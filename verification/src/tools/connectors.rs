//! The connector tools.
use vstd::prelude::*;
use crate::strings::int_decimal;
use crate::api::toggle_connector_request;
use crate::api::{
    collection, create_request, delete_request, export_request, get_request, is_request,
    item_path, list_request, object1,
    update_request, ApiRequest, Method,
    Resource, ResponseKind, opt_number,
};
use crate::json::{json_content, serde_json_parse, JsonValue};
use crate::text::{ends_with, lemma_parts_push, lemma_query_ends_with_last, number_value, present_part, string_value, parts_of, lemma_query_view, opt_decimal, opt_text, pair_view, query_text};
use crate::tools::{
    data_params, data_params_body, import_plan, import_plan_spec, invalid_json_message,
    parse_param,
};

verus! {

/// Parameters of `connectors_list`.
pub struct ConnectorsListParams {
    pub limit: Option<i64>,
    pub offset: Option<i64>,
}

/// Parameters of `connectors_get`.
pub struct ConnectorsGetParams {
    pub id: String,
}

/// Parameters of `connectors_create`.
pub struct ConnectorsCreateParams {
    pub connector_json: String,
}

/// Parameters of `connectors_update`.
pub struct ConnectorsUpdateParams {
    pub id: String,
    pub connector_json: String,
}

/// Parameters of `connectors_delete`.
pub struct ConnectorsDeleteParams {
    pub id: String,
}

/// Parameters of `connectors_import`.
pub struct ConnectorsImportParams {
    pub connectors_json: String,
    pub dry_run: Option<bool>,
}

/// The paging of a connector list, as query parameters.
pub open spec fn filters(
    limit: Option<i64>,
    offset: Option<i64>,
) -> Seq<(Seq<char>, Option<Seq<char>>)> {
    seq![
        ("limit"@, opt_decimal(limit)),
        ("offset"@, opt_decimal(offset)),
    ]
}

/// `connectors_list`: the connectors matching the filters.
pub fn list(p: ConnectorsListParams) -> (req: ApiRequest)
    ensures
        is_request(
            req,
            Method::Get,
            collection(Resource::Connectors) + query_text(filters(p.limit, p.offset)),
            None,
            ResponseKind::Json,
        ),
{
    let ghost (l, o) = (p.limit, p.offset);
    let params = [
        ("limit", opt_number(p.limit)),
        ("offset", opt_number(p.offset)),
    ];
    proof {
        lemma_query_view(params@);
        reveal_strlit("limit");
        reveal_strlit("offset");
        assert(params@.map_values(|q: (&str, Option<String>)| pair_view(q)) =~= filters(l, o));
    }
    list_request(Resource::Connectors, &params)
}

/// `connectors_get`: one connector.
pub fn get(p: &ConnectorsGetParams) -> (req: ApiRequest)
    ensures
        is_request(req, Method::Get, item_path(Resource::Connectors, p.id@), None, ResponseKind::Json),
{
    get_request(Resource::Connectors, p.id.as_str())
}

/// `connectors_create`: creates a connector from its JSON definition.
pub fn create(p: &ConnectorsCreateParams) -> (req: Result<ApiRequest, String>)
    ensures
        match serde_json_parse(p.connector_json@) {
            Ok(c) => req is Ok && is_request(
                req->Ok_0,
                Method::Post,
                collection(Resource::Connectors),
                Some(c),
                ResponseKind::Json,
            ),
            Err(e) => req is Err && req->Err_0@ == invalid_json_message("connector"@, e),
        },
{
    let body = parse_param(p.connector_json.as_str(), "connector")?;
    Ok(create_request(Resource::Connectors, body))
}

/// `connectors_update`: replaces a connector's definition.
pub fn update(p: &ConnectorsUpdateParams) -> (req: Result<ApiRequest, String>)
    ensures
        match serde_json_parse(p.connector_json@) {
            Ok(c) => req is Ok && is_request(
                req->Ok_0,
                Method::Put,
                item_path(Resource::Connectors, p.id@),
                Some(c),
                ResponseKind::Json,
            ),
            Err(e) => req is Err && req->Err_0@ == invalid_json_message("connector"@, e),
        },
{
    let body = parse_param(p.connector_json.as_str(), "connector")?;
    Ok(update_request(Resource::Connectors, p.id.as_str(), body))
}

/// `connectors_delete`: deletes a connector.
pub fn delete(p: &ConnectorsDeleteParams) -> (req: ApiRequest)
    ensures
        is_request(req, Method::Delete, item_path(Resource::Connectors, p.id@), None, ResponseKind::Nothing),
{
    delete_request(Resource::Connectors, p.id.as_str())
}

/// Parameters of `connectors_enable` and `connectors_disable`.
pub struct ConnectorsToggleParams {
    pub id: String,
}

/// `connectors_enable`: switches a connector on.
pub fn enable(p: &ConnectorsToggleParams) -> (req: ApiRequest)
    ensures
        is_request(
            req,
            Method::Put,
            item_path(Resource::Connectors, p.id@),
            Some(object1("enabled"@, JsonValue::Bool(true))),
            ResponseKind::Json,
        ),
{
    toggle_connector_request(p.id.as_str(), true)
}

/// `connectors_disable`: switches a connector off.
pub fn disable(p: &ConnectorsToggleParams) -> (req: ApiRequest)
    ensures
        is_request(
            req,
            Method::Put,
            item_path(Resource::Connectors, p.id@),
            Some(object1("enabled"@, JsonValue::Bool(false))),
            ResponseKind::Json,
        ),
{
    toggle_connector_request(p.id.as_str(), false)
}

/// `connectors_import`: a bulk import (validated only with `dry_run`).
pub fn import(p: &ConnectorsImportParams) -> (req: Result<ApiRequest, String>)
    ensures
        import_plan_spec(
            Resource::Connectors,
            "connector"@,
            p.connectors_json@,
            match p.dry_run {
                Some(b) => b,
                None => false,
            },
            req,
        ),
{
    let dry = match p.dry_run {
        Some(b) => b,
        None => false,
    };
    import_plan(Resource::Connectors, "connector", p.connectors_json.as_str(), dry)
}

/// The query of `connectors_list` holds exactly one `key=value` part per filter
/// given a value, in the order limit, offset, and none for
/// a filter left out; in particular a given offset is the query's last part.
pub proof fn law_connectors_query(
    limit: Option<i64>,
    offset: Option<i64>,
)
    ensures
        parts_of(filters(limit, offset)) == present_part("limit"@, number_value(limit)) + present_part("offset"@, number_value(offset)),
        offset matches Some(n) ==> ends_with(query_text(filters(limit, offset)), "offset="@ + int_decimal(n as int)),
{
    let f = filters(limit, offset);
    reveal_strlit("limit");
    reveal_strlit("offset");
    reveal_strlit("offset=");
    assert(f =~= Seq::<(Seq<char>, Option<Seq<char>>)>::empty().push(f[0]).push(f[1]));
    lemma_parts_push(Seq::<(Seq<char>, Option<Seq<char>>)>::empty(), f[0]);
    lemma_parts_push(Seq::<(Seq<char>, Option<Seq<char>>)>::empty().push(f[0]), f[1]);
    assert(parts_of(Seq::<(Seq<char>, Option<Seq<char>>)>::empty()) =~= Seq::<Seq<char>>::empty());
    if let Some(n) = offset {
        lemma_query_ends_with_last(f);
        assert(parts_of(f).last() =~= "offset="@ + int_decimal(n as int));
    }
}

} // verus!
