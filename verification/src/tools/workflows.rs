//! The workflow tools.
use vstd::prelude::*;
use crate::strings::int_decimal;
use crate::api::{
    collection, create_request, delete_request, export_request, get_request, is_request,
    item_path, list_request, new_version_request, object1, rollout_request, status_request,
    test_request, update_request, validate_request, versions_request, ApiRequest, Method,
    Resource, ResponseKind, opt_number,
};
use crate::json::{json_content, serde_json_parse, JsonValue};
use crate::text::{ends_with, lemma_parts_push, lemma_query_ends_with_last, number_value, present_part, string_value, parts_of, lemma_query_view, opt_decimal, opt_text, pair_view, query_text};
use crate::tools::{
    data_params, data_params_body, import_plan, import_plan_spec, invalid_json_message,
    parse_param,
};

verus! {

/// Parameters of `workflows_list`.
pub struct WorkflowsListParams {
    pub status: Option<String>,
    pub tag: Option<String>,
    pub limit: Option<i64>,
    pub offset: Option<i64>,
}

/// Parameters of `workflows_get`.
pub struct WorkflowsGetParams {
    pub id: String,
}

/// Parameters of `workflows_create`.
pub struct WorkflowsCreateParams {
    pub workflow_json: String,
}

/// Parameters of `workflows_update`.
pub struct WorkflowsUpdateParams {
    pub id: String,
    pub workflow_json: String,
}

/// Parameters of `workflows_delete`.
pub struct WorkflowsDeleteParams {
    pub id: String,
}

/// Parameters of `workflows_activate` and `workflows_archive`.
pub struct WorkflowsStatusParams {
    pub id: String,
}

/// Parameters of `workflows_test`.
pub struct WorkflowsTestParams {
    pub id: String,
    pub data: String,
    pub metadata: Option<String>,
}

/// Parameters of `workflows_export`.
pub struct WorkflowsExportParams {
    pub status: Option<String>,
    pub tag: Option<String>,
    pub limit: Option<i64>,
    pub offset: Option<i64>,
}

/// Parameters of `workflows_validate`.
pub struct WorkflowsValidateParams {
    pub workflow_json: String,
}

/// Parameters of `workflows_rollout`.
pub struct WorkflowsRolloutParams {
    pub id: String,
    pub rollout_percentage: i64,
}

/// Parameters of `workflows_versions` and `workflows_create_version`.
pub struct WorkflowsVersionsParams {
    pub id: String,
}

/// Parameters of `workflows_import`.
pub struct WorkflowsImportParams {
    pub workflows_json: String,
    pub dry_run: Option<bool>,
}

/// The filters of a workflow list or export, as query parameters.
pub open spec fn filters(
    status: Option<String>,
    tag: Option<String>,
    limit: Option<i64>,
    offset: Option<i64>,
) -> Seq<(Seq<char>, Option<Seq<char>>)> {
    seq![
        ("status"@, opt_text(status)),
        ("tag"@, opt_text(tag)),
        ("limit"@, opt_decimal(limit)),
        ("offset"@, opt_decimal(offset)),
    ]
}

/// `workflows_list`: the workflows matching the filters.
pub fn list(p: WorkflowsListParams) -> (req: ApiRequest)
    ensures
        is_request(
            req,
            Method::Get,
            collection(Resource::Workflows) + query_text(filters(p.status, p.tag, p.limit, p.offset)),
            None,
            ResponseKind::Json,
        ),
{
    let ghost (s, t, l, o) = (p.status, p.tag, p.limit, p.offset);
    let params = [
        ("status", p.status),
        ("tag", p.tag),
        ("limit", opt_number(p.limit)),
        ("offset", opt_number(p.offset)),
    ];
    proof {
        lemma_query_view(params@);
        reveal_strlit("status");
        reveal_strlit("tag");
        reveal_strlit("limit");
        reveal_strlit("offset");
        assert(params@.map_values(|q: (&str, Option<String>)| pair_view(q)) =~= filters(s, t, l, o));
    }
    list_request(Resource::Workflows, &params)
}

/// `workflows_get`: one workflow.
pub fn get(p: &WorkflowsGetParams) -> (req: ApiRequest)
    ensures
        is_request(req, Method::Get, item_path(Resource::Workflows, p.id@), None, ResponseKind::Json),
{
    get_request(Resource::Workflows, p.id.as_str())
}

/// `workflows_create`: creates a workflow from its JSON definition.
pub fn create(p: &WorkflowsCreateParams) -> (req: Result<ApiRequest, String>)
    ensures
        match serde_json_parse(p.workflow_json@) {
            Ok(c) => req is Ok && is_request(
                req->Ok_0,
                Method::Post,
                collection(Resource::Workflows),
                Some(c),
                ResponseKind::Json,
            ),
            Err(e) => req is Err && req->Err_0@ == invalid_json_message("workflow"@, e),
        },
{
    let body = parse_param(p.workflow_json.as_str(), "workflow")?;
    Ok(create_request(Resource::Workflows, body))
}

/// `workflows_update`: replaces a workflow's definition.
pub fn update(p: &WorkflowsUpdateParams) -> (req: Result<ApiRequest, String>)
    ensures
        match serde_json_parse(p.workflow_json@) {
            Ok(c) => req is Ok && is_request(
                req->Ok_0,
                Method::Put,
                item_path(Resource::Workflows, p.id@),
                Some(c),
                ResponseKind::Json,
            ),
            Err(e) => req is Err && req->Err_0@ == invalid_json_message("workflow"@, e),
        },
{
    let body = parse_param(p.workflow_json.as_str(), "workflow")?;
    Ok(update_request(Resource::Workflows, p.id.as_str(), body))
}

/// `workflows_delete`: deletes a workflow.
pub fn delete(p: &WorkflowsDeleteParams) -> (req: ApiRequest)
    ensures
        is_request(req, Method::Delete, item_path(Resource::Workflows, p.id@), None, ResponseKind::Nothing),
{
    delete_request(Resource::Workflows, p.id.as_str())
}

/// `workflows_activate`: sets the status to "active".
pub fn activate(p: &WorkflowsStatusParams) -> (req: ApiRequest)
    ensures
        is_request(
            req,
            Method::Patch,
            item_path(Resource::Workflows, p.id@) + "/status"@,
            Some(object1("status"@, JsonValue::Str("active"@))),
            ResponseKind::Json,
        ),
{
    status_request(Resource::Workflows, p.id.as_str(), "active")
}

/// `workflows_archive`: sets the status to "archived".
pub fn archive(p: &WorkflowsStatusParams) -> (req: ApiRequest)
    ensures
        is_request(
            req,
            Method::Patch,
            item_path(Resource::Workflows, p.id@) + "/status"@,
            Some(object1("status"@, JsonValue::Str("archived"@))),
            ResponseKind::Json,
        ),
{
    status_request(Resource::Workflows, p.id.as_str(), "archived")
}

/// `workflows_test`: a dry run of a workflow on a payload.
pub fn test(p: &WorkflowsTestParams) -> (req: Result<ApiRequest, String>)
    ensures
        match data_params_body(
            p.data@,
            match p.metadata {
                Some(m) => Some(m@),
                None => None,
            },
            "test data"@,
        ) {
            Ok(b) => req is Ok && is_request(
                req->Ok_0,
                Method::Post,
                item_path(Resource::Workflows, p.id@) + "/test"@,
                Some(b),
                ResponseKind::Json,
            ),
            Err(e) => req is Err && req->Err_0@ == e,
        },
{
    let meta = match &p.metadata {
        Some(m) => Some(m.as_str()),
        None => None,
    };
    let body = data_params(p.data.as_str(), meta, "test data")?;
    Ok(crate::api::post_json(crate::api::item_sub(Resource::Workflows, p.id.as_str(), "/test"), body))
}

/// `workflows_export`: the workflows matching the filters, for import.
pub fn export(p: WorkflowsExportParams) -> (req: ApiRequest)
    ensures
        is_request(
            req,
            Method::Get,
            collection(Resource::Workflows) + "/export"@ + query_text(
                filters(p.status, p.tag, p.limit, p.offset),
            ),
            None,
            ResponseKind::Json,
        ),
{
    let ghost (s, t, l, o) = (p.status, p.tag, p.limit, p.offset);
    let params = [
        ("status", p.status),
        ("tag", p.tag),
        ("limit", opt_number(p.limit)),
        ("offset", opt_number(p.offset)),
    ];
    proof {
        lemma_query_view(params@);
        reveal_strlit("status");
        reveal_strlit("tag");
        reveal_strlit("limit");
        reveal_strlit("offset");
        assert(params@.map_values(|q: (&str, Option<String>)| pair_view(q)) =~= filters(s, t, l, o));
    }
    export_request(Resource::Workflows, &params)
}

/// `workflows_import`: a bulk import (validated only with `dry_run`).
pub fn import(p: &WorkflowsImportParams) -> (req: Result<ApiRequest, String>)
    ensures
        import_plan_spec(
            Resource::Workflows,
            "workflow"@,
            p.workflows_json@,
            match p.dry_run {
                Some(b) => b,
                None => false,
            },
            req,
        ),
{
    let dry = match p.dry_run {
        Some(b) => b,
        None => false,
    };
    import_plan(Resource::Workflows, "workflow", p.workflows_json.as_str(), dry)
}

/// `workflows_validate`: validates a definition without creating it.
pub fn validate(p: &WorkflowsValidateParams) -> (req: Result<ApiRequest, String>)
    ensures
        match serde_json_parse(p.workflow_json@) {
            Ok(c) => req is Ok && is_request(
                req->Ok_0,
                Method::Post,
                collection(Resource::Workflows) + "/validate"@,
                Some(c),
                ResponseKind::Json,
            ),
            Err(e) => req is Err && req->Err_0@ == invalid_json_message("workflow"@, e),
        },
{
    let body = parse_param(p.workflow_json.as_str(), "workflow")?;
    Ok(validate_request(Resource::Workflows, body))
}

/// `workflows_rollout`: sets the rollout percentage.
pub fn rollout(p: &WorkflowsRolloutParams) -> (req: ApiRequest)
    ensures
        is_request(
            req,
            Method::Patch,
            item_path(Resource::Workflows, p.id@) + "/rollout"@,
            Some(object1("rollout_percentage"@, JsonValue::Int(p.rollout_percentage as int))),
            ResponseKind::Json,
        ),
{
    rollout_request(Resource::Workflows, p.id.as_str(), p.rollout_percentage)
}

/// `workflows_versions`: the version history.
pub fn versions(p: &WorkflowsVersionsParams) -> (req: ApiRequest)
    ensures
        is_request(req, Method::Get, item_path(Resource::Workflows, p.id@) + "/versions"@, None, ResponseKind::Json),
{
    versions_request(Resource::Workflows, p.id.as_str())
}

/// `workflows_create_version`: a new draft version.
pub fn create_version(p: &WorkflowsVersionsParams) -> (req: ApiRequest)
    ensures
        is_request(req, Method::Post, item_path(Resource::Workflows, p.id@) + "/versions"@, None, ResponseKind::Json),
{
    new_version_request(Resource::Workflows, p.id.as_str())
}

/// The query of `workflows_list` holds exactly one `key=value` part per filter
/// given a value, in the order status, tag, limit, offset, and none for
/// a filter left out; in particular a given offset is the query's last part.
pub proof fn law_workflows_query(
    status: Option<String>,
    tag: Option<String>,
    limit: Option<i64>,
    offset: Option<i64>,
)
    ensures
        parts_of(filters(status, tag, limit, offset)) == present_part("status"@, string_value(status)) + present_part("tag"@, string_value(tag)) + present_part("limit"@, number_value(limit)) + present_part("offset"@, number_value(offset)),
        offset matches Some(n) ==> ends_with(query_text(filters(status, tag, limit, offset)), "offset="@ + int_decimal(n as int)),
{
    let f = filters(status, tag, limit, offset);
    reveal_strlit("status");
    reveal_strlit("tag");
    reveal_strlit("limit");
    reveal_strlit("offset");
    reveal_strlit("offset=");
    assert(f =~= Seq::<(Seq<char>, Option<Seq<char>>)>::empty().push(f[0]).push(f[1]).push(f[2]).push(f[3]));
    lemma_parts_push(Seq::<(Seq<char>, Option<Seq<char>>)>::empty(), f[0]);
    lemma_parts_push(Seq::<(Seq<char>, Option<Seq<char>>)>::empty().push(f[0]), f[1]);
    lemma_parts_push(Seq::<(Seq<char>, Option<Seq<char>>)>::empty().push(f[0]).push(f[1]), f[2]);
    lemma_parts_push(Seq::<(Seq<char>, Option<Seq<char>>)>::empty().push(f[0]).push(f[1]).push(f[2]), f[3]);
    assert(parts_of(Seq::<(Seq<char>, Option<Seq<char>>)>::empty()) =~= Seq::<Seq<char>>::empty());
    if let Some(n) = offset {
        lemma_query_ends_with_last(f);
        assert(parts_of(f).last() =~= "offset="@ + int_decimal(n as int));
    }
}

} // verus!
