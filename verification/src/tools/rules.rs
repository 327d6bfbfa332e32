//! The rule tools.
use vstd::prelude::*;
use crate::strings::int_decimal;
use crate::api::{
    collection, create_request, delete_request, export_request, get_request, is_request,
    item_path, list_request, new_version_request, object1, rollout_request, status_request,
    test_request, update_request, validate_request, versions_request, ApiRequest, Method,
    Resource, ResponseKind, opt_number,
};
use crate::json::{json_content, serde_json_parse, JsonValue};
use crate::text::{ends_with, lemma_parts_push, lemma_query_ends_with_last, number_value, present_part, string_value, parts_of, lemma_query_view, opt_decimal, opt_text, pair_view, query_string, query_text};
use crate::tools::{data_params, data_params_body, invalid_json_message, parse_param};
use crate::api::import_request;
use crate::json::{as_array, str_field_or};
use crate::strings::{nat_decimal, push_str, push_u64};
use crate::view::str_or;

verus! {

/// Parameters of `rules_list`.
pub struct RulesListParams {
    pub status: Option<String>,
    pub channel: Option<String>,
    pub tag: Option<String>,
    pub limit: Option<i64>,
    pub offset: Option<i64>,
}

/// Parameters of `rules_get`.
pub struct RulesGetParams {
    pub id: String,
}

/// Parameters of `rules_create`.
pub struct RulesCreateParams {
    pub rule_json: String,
}

/// Parameters of `rules_update`.
pub struct RulesUpdateParams {
    pub id: String,
    pub rule_json: String,
}

/// Parameters of `rules_delete`.
pub struct RulesDeleteParams {
    pub id: String,
}

/// Parameters of `rules_activate`, `rules_pause` and `rules_archive`.
pub struct RulesStatusParams {
    pub id: String,
}

/// Parameters of `rules_test`.
pub struct RulesTestParams {
    pub id: String,
    pub data: String,
    pub metadata: Option<String>,
}

/// Parameters of `rules_export`.
pub struct RulesExportParams {
    pub status: Option<String>,
    pub channel: Option<String>,
    pub tag: Option<String>,
    pub limit: Option<i64>,
    pub offset: Option<i64>,
}

/// Parameters of `rules_validate`.
pub struct RulesValidateParams {
    pub rule_json: String,
}

/// Parameters of `rules_rollout`.
pub struct RulesRolloutParams {
    pub id: String,
    pub rollout_percentage: i64,
}

/// Parameters of `rules_versions` and `rules_create_version`.
pub struct RulesVersionsParams {
    pub id: String,
}

/// Parameters of `rules_import`.
pub struct RulesImportParams {
    pub rules_json: String,
    pub dry_run: Option<bool>,
}

/// The filters of a rule list or export, as query parameters.
pub open spec fn filters(
    status: Option<String>,
    channel: Option<String>,
    tag: Option<String>,
    limit: Option<i64>,
    offset: Option<i64>,
) -> Seq<(Seq<char>, Option<Seq<char>>)> {
    seq![
        ("status"@, opt_text(status)),
        ("channel"@, opt_text(channel)),
        ("tag"@, opt_text(tag)),
        ("limit"@, opt_decimal(limit)),
        ("offset"@, opt_decimal(offset)),
    ]
}

/// `rules_list`: the rules matching the filters.
pub fn list(p: RulesListParams) -> (req: ApiRequest)
    ensures
        is_request(
            req,
            Method::Get,
            collection(Resource::Rules) + query_text(filters(p.status, p.channel, p.tag, p.limit, p.offset)),
            None,
            ResponseKind::Json,
        ),
{
    let ghost (s, c, t, l, o) = (p.status, p.channel, p.tag, p.limit, p.offset);
    let params = [
        ("status", p.status),
        ("channel", p.channel),
        ("tag", p.tag),
        ("limit", opt_number(p.limit)),
        ("offset", opt_number(p.offset)),
    ];
    proof {
        lemma_query_view(params@);
        reveal_strlit("status");
        reveal_strlit("channel");
        reveal_strlit("tag");
        reveal_strlit("limit");
        reveal_strlit("offset");
        assert(params@.map_values(|q: (&str, Option<String>)| pair_view(q)) =~= filters(s, c, t, l, o));
    }
    list_request(Resource::Rules, &params)
}

/// `rules_get`: one rule.
pub fn get(p: &RulesGetParams) -> (req: ApiRequest)
    ensures
        is_request(req, Method::Get, item_path(Resource::Rules, p.id@), None, ResponseKind::Json),
{
    get_request(Resource::Rules, p.id.as_str())
}

/// `rules_create`: creates a rule from its JSON definition.
pub fn create(p: &RulesCreateParams) -> (req: Result<ApiRequest, String>)
    ensures
        match serde_json_parse(p.rule_json@) {
            Ok(c) => req is Ok && is_request(
                req->Ok_0,
                Method::Post,
                collection(Resource::Rules),
                Some(c),
                ResponseKind::Json,
            ),
            Err(e) => req is Err && req->Err_0@ == invalid_json_message("rule"@, e),
        },
{
    let body = parse_param(p.rule_json.as_str(), "rule")?;
    Ok(create_request(Resource::Rules, body))
}

/// `rules_update`: replaces a rule's definition.
pub fn update(p: &RulesUpdateParams) -> (req: Result<ApiRequest, String>)
    ensures
        match serde_json_parse(p.rule_json@) {
            Ok(c) => req is Ok && is_request(
                req->Ok_0,
                Method::Put,
                item_path(Resource::Rules, p.id@),
                Some(c),
                ResponseKind::Json,
            ),
            Err(e) => req is Err && req->Err_0@ == invalid_json_message("rule"@, e),
        },
{
    let body = parse_param(p.rule_json.as_str(), "rule")?;
    Ok(update_request(Resource::Rules, p.id.as_str(), body))
}

/// `rules_delete`: deletes a rule.
pub fn delete(p: &RulesDeleteParams) -> (req: ApiRequest)
    ensures
        is_request(req, Method::Delete, item_path(Resource::Rules, p.id@), None, ResponseKind::Nothing),
{
    delete_request(Resource::Rules, p.id.as_str())
}

/// `rules_activate`: sets the status to "active".
pub fn activate(p: &RulesStatusParams) -> (req: ApiRequest)
    ensures
        is_request(
            req,
            Method::Patch,
            item_path(Resource::Rules, p.id@) + "/status"@,
            Some(object1("status"@, JsonValue::Str("active"@))),
            ResponseKind::Json,
        ),
{
    status_request(Resource::Rules, p.id.as_str(), "active")
}

/// `rules_pause`: sets the status to "paused".
pub fn pause(p: &RulesStatusParams) -> (req: ApiRequest)
    ensures
        is_request(
            req,
            Method::Patch,
            item_path(Resource::Rules, p.id@) + "/status"@,
            Some(object1("status"@, JsonValue::Str("paused"@))),
            ResponseKind::Json,
        ),
{
    status_request(Resource::Rules, p.id.as_str(), "paused")
}

/// `rules_archive`: sets the status to "archived".
pub fn archive(p: &RulesStatusParams) -> (req: ApiRequest)
    ensures
        is_request(
            req,
            Method::Patch,
            item_path(Resource::Rules, p.id@) + "/status"@,
            Some(object1("status"@, JsonValue::Str("archived"@))),
            ResponseKind::Json,
        ),
{
    status_request(Resource::Rules, p.id.as_str(), "archived")
}

/// `rules_test`: a dry run of a rule on a payload.
pub fn test(p: &RulesTestParams) -> (req: Result<ApiRequest, String>)
    ensures
        match data_params_body(
            p.data@,
            match p.metadata {
                Some(m) => Some(m@),
                None => None,
            },
            "test data"@,
        ) {
            Ok(b) => req is Ok && is_request(
                req->Ok_0,
                Method::Post,
                item_path(Resource::Rules, p.id@) + "/test"@,
                Some(b),
                ResponseKind::Json,
            ),
            Err(e) => req is Err && req->Err_0@ == e,
        },
{
    let meta = match &p.metadata {
        Some(m) => Some(m.as_str()),
        None => None,
    };
    let body = data_params(p.data.as_str(), meta, "test data")?;
    Ok(crate::api::post_json(crate::api::item_sub(Resource::Rules, p.id.as_str(), "/test"), body))
}

/// `rules_export`: the rules matching the filters, for import.
pub fn export(p: RulesExportParams) -> (req: ApiRequest)
    ensures
        is_request(
            req,
            Method::Get,
            collection(Resource::Rules) + "/export"@ + query_text(
                filters(p.status, p.channel, p.tag, p.limit, p.offset),
            ),
            None,
            ResponseKind::Json,
        ),
{
    let ghost (s, c, t, l, o) = (p.status, p.channel, p.tag, p.limit, p.offset);
    let params = [
        ("status", p.status),
        ("channel", p.channel),
        ("tag", p.tag),
        ("limit", opt_number(p.limit)),
        ("offset", opt_number(p.offset)),
    ];
    proof {
        lemma_query_view(params@);
        reveal_strlit("status");
        reveal_strlit("channel");
        reveal_strlit("tag");
        reveal_strlit("limit");
        reveal_strlit("offset");
        assert(params@.map_values(|q: (&str, Option<String>)| pair_view(q)) =~= filters(s, c, t, l, o));
    }
    export_request(Resource::Rules, &params)
}

/// The dry-run preview of a rules import: the count, then one numbered
/// line per rule with its name and channel.
pub open spec fn preview_lines(items: Seq<JsonValue>) -> Seq<char>
    decreases items.len(),
{
    if items.len() == 0 {
        Seq::empty()
    } else {
        let r = items.last();
        preview_lines(items.drop_last()) + "  "@ + nat_decimal(items.len()) + ". "@ + str_or(
            r,
            "name"@,
            "(unnamed)"@,
        ) + " (channel: "@ + str_or(r, "channel"@, "default"@) + ")\n"@
    }
}

/// The whole dry-run preview text.
pub open spec fn preview_text(items: Seq<JsonValue>) -> Seq<char> {
    "Dry run: would import "@ + nat_decimal(items.len()) + " rule(s)\n"@ + preview_lines(items)
}

/// What `rules_import` does: reply with a local preview (dry run) or send
/// the rules to the server.
pub enum RulesImport {
    Preview(String),
    Send(ApiRequest),
}

/// `rules_import`: parses the rules, which must form an array; a dry run is
/// answered locally with a preview, otherwise the rules are sent.
pub fn import(p: &RulesImportParams) -> (res: Result<RulesImport, String>)
    ensures
        match serde_json_parse(p.rules_json@) {
            Err(e) => res is Err && res->Err_0@ == invalid_json_message("rules"@, e),
            Ok(JsonValue::Array(items)) => res is Ok && if p.dry_run == Some(true) {
                res->Ok_0 matches RulesImport::Preview(t) && t@ == preview_text(items)
            } else {
                res->Ok_0 matches RulesImport::Send(req) && is_request(
                    req,
                    Method::Post,
                    collection(Resource::Rules) + "/import"@,
                    Some(JsonValue::Array(items)),
                    ResponseKind::Json,
                )
            },
            Ok(_) => res is Err && res->Err_0@ == "Import data must be a JSON array of rules"@,
        },
{
    let v = parse_param(p.rules_json.as_str(), "rules")?;
    match as_array(&v) {
        None => Err(String::from_str("Import data must be a JSON array of rules")),
        Some(arr) => {
            let dry = match p.dry_run {
                Some(b) => b,
                None => false,
            };
            if dry {
                let ghost s = match json_content(v) {
                    JsonValue::Array(s) => s,
                    _ => Seq::empty(),
                };
                let mut t = String::from_str("Dry run: would import ");
                push_u64(&mut t, arr.len() as u64);
                push_str(&mut t, " rule(s)\n");
                let ghost head = t@;
                let mut i: usize = 0;
                while i < arr.len()
                    invariant
                        i <= arr.len(),
                        arr@.len() == s.len(),
                        forall|j: int| 0 <= j < s.len() ==> json_content(#[trigger] arr@[j]) == s[j],
                        t@ == head + preview_lines(s.take(i as int)),
                    decreases arr.len() - i,
                {
                    proof {
                        assert(s.take(i + 1).drop_last() =~= s.take(i as int));
                        assert(s.take(i + 1).last() == json_content(arr@[i as int]));
                    }
                    let r = &arr[i];
                    push_str(&mut t, "  ");
                    push_u64(&mut t, (i + 1) as u64);
                    push_str(&mut t, ". ");
                    push_str(&mut t, str_field_or(r, "name", "(unnamed)"));
                    push_str(&mut t, " (channel: ");
                    push_str(&mut t, str_field_or(r, "channel", "default"));
                    push_str(&mut t, ")\n");
                    i = i + 1;
                }
                assert(s.take(s.len() as int) =~= s);
                Ok(RulesImport::Preview(t))
            } else {
                Ok(RulesImport::Send(import_request(Resource::Rules, v, false)))
            }
        },
    }
}

/// `rules_validate`: validates a definition without creating it.
pub fn validate(p: &RulesValidateParams) -> (req: Result<ApiRequest, String>)
    ensures
        match serde_json_parse(p.rule_json@) {
            Ok(c) => req is Ok && is_request(
                req->Ok_0,
                Method::Post,
                collection(Resource::Rules) + "/validate"@,
                Some(c),
                ResponseKind::Json,
            ),
            Err(e) => req is Err && req->Err_0@ == invalid_json_message("rule"@, e),
        },
{
    let body = parse_param(p.rule_json.as_str(), "rule")?;
    Ok(validate_request(Resource::Rules, body))
}

/// `rules_rollout`: sets the rollout percentage.
pub fn rollout(p: &RulesRolloutParams) -> (req: ApiRequest)
    ensures
        is_request(
            req,
            Method::Patch,
            item_path(Resource::Rules, p.id@) + "/rollout"@,
            Some(object1("rollout_percentage"@, JsonValue::Int(p.rollout_percentage as int))),
            ResponseKind::Json,
        ),
{
    rollout_request(Resource::Rules, p.id.as_str(), p.rollout_percentage)
}

/// `rules_versions`: the version history.
pub fn versions(p: &RulesVersionsParams) -> (req: ApiRequest)
    ensures
        is_request(req, Method::Get, item_path(Resource::Rules, p.id@) + "/versions"@, None, ResponseKind::Json),
{
    versions_request(Resource::Rules, p.id.as_str())
}

/// `rules_create_version`: a new draft version.
pub fn create_version(p: &RulesVersionsParams) -> (req: ApiRequest)
    ensures
        is_request(req, Method::Post, item_path(Resource::Rules, p.id@) + "/versions"@, None, ResponseKind::Json),
{
    new_version_request(Resource::Rules, p.id.as_str())
}

/// The path of `rules_list` is the rules collection followed by the query
/// string `build_query_string` gives for the five filters, in the order
/// status, channel, tag, limit, offset.
pub proof fn law_rules_list_query(
    ps: Seq<(&str, Option<String>)>,
    status: Option<String>,
    channel: Option<String>,
    tag: Option<String>,
    limit: Option<i64>,
    offset: Option<i64>,
)
    requires
        ps.map_values(|q: (&str, Option<String>)| pair_view(q)) == filters(status, channel, tag, limit, offset),
    ensures
        query_string(ps) == query_text(filters(status, channel, tag, limit, offset)),
{
    lemma_query_view(ps);
}

/// The query of `rules_list` holds exactly one `key=value` part per filter
/// given a value, in the order status, channel, tag, limit, offset, and none for
/// a filter left out; in particular a given offset is the query's last part.
pub proof fn law_rules_query(
    status: Option<String>,
    channel: Option<String>,
    tag: Option<String>,
    limit: Option<i64>,
    offset: Option<i64>,
)
    ensures
        parts_of(filters(status, channel, tag, limit, offset)) == present_part("status"@, string_value(status)) + present_part("channel"@, string_value(channel)) + present_part("tag"@, string_value(tag)) + present_part("limit"@, number_value(limit)) + present_part("offset"@, number_value(offset)),
        offset matches Some(n) ==> ends_with(query_text(filters(status, channel, tag, limit, offset)), "offset="@ + int_decimal(n as int)),
{
    let f = filters(status, channel, tag, limit, offset);
    reveal_strlit("status");
    reveal_strlit("channel");
    reveal_strlit("tag");
    reveal_strlit("limit");
    reveal_strlit("offset");
    reveal_strlit("offset=");
    assert(f =~= Seq::<(Seq<char>, Option<Seq<char>>)>::empty().push(f[0]).push(f[1]).push(f[2]).push(f[3]).push(f[4]));
    lemma_parts_push(Seq::<(Seq<char>, Option<Seq<char>>)>::empty(), f[0]);
    lemma_parts_push(Seq::<(Seq<char>, Option<Seq<char>>)>::empty().push(f[0]), f[1]);
    lemma_parts_push(Seq::<(Seq<char>, Option<Seq<char>>)>::empty().push(f[0]).push(f[1]), f[2]);
    lemma_parts_push(Seq::<(Seq<char>, Option<Seq<char>>)>::empty().push(f[0]).push(f[1]).push(f[2]), f[3]);
    lemma_parts_push(Seq::<(Seq<char>, Option<Seq<char>>)>::empty().push(f[0]).push(f[1]).push(f[2]).push(f[3]), f[4]);
    assert(parts_of(Seq::<(Seq<char>, Option<Seq<char>>)>::empty()) =~= Seq::<Seq<char>>::empty());
    if let Some(n) = offset {
        lemma_query_ends_with_last(f);
        assert(parts_of(f).last() =~= "offset="@ + int_decimal(n as int));
    }
}

} // verus!
