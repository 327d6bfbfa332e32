//! The channel tools.
use vstd::prelude::*;
use crate::strings::int_decimal;
use crate::api::{
    collection, create_request, delete_request, export_request, get_request, is_request,
    item_path, list_request, new_version_request, object1, status_request,
    update_request, versions_request, ApiRequest, Method,
    Resource, ResponseKind, opt_number,
};
use crate::json::{json_content, serde_json_parse, JsonValue};
use crate::text::{ends_with, lemma_parts_push, lemma_query_ends_with_last, number_value, present_part, string_value, parts_of, lemma_query_view, opt_decimal, opt_text, pair_view, query_text};
use crate::tools::{
    data_params, data_params_body, import_plan, import_plan_spec, invalid_json_message,
    parse_param,
};

verus! {

/// Parameters of `channels_list`.
pub struct ChannelsListParams {
    pub status: Option<String>,
    pub channel_type: Option<String>,
    pub protocol: Option<String>,
    pub limit: Option<i64>,
    pub offset: Option<i64>,
}

/// Parameters of `channels_get`.
pub struct ChannelsGetParams {
    pub id: String,
}

/// Parameters of `channels_create`.
pub struct ChannelsCreateParams {
    pub channel_json: String,
}

/// Parameters of `channels_update`.
pub struct ChannelsUpdateParams {
    pub id: String,
    pub channel_json: String,
}

/// Parameters of `channels_delete`.
pub struct ChannelsDeleteParams {
    pub id: String,
}

/// Parameters of `channels_activate` and `channels_archive`.
pub struct ChannelsStatusParams {
    pub id: String,
}

/// Parameters of `channels_versions` and `channels_create_version`.
pub struct ChannelsVersionsParams {
    pub id: String,
}

/// Parameters of `channels_import`.
pub struct ChannelsImportParams {
    pub channels_json: String,
    pub dry_run: Option<bool>,
}

/// The filters of a channel list, as query parameters.
pub open spec fn filters(
    status: Option<String>,
    channel_type: Option<String>,
    protocol: Option<String>,
    limit: Option<i64>,
    offset: Option<i64>,
) -> Seq<(Seq<char>, Option<Seq<char>>)> {
    seq![
        ("status"@, opt_text(status)),
        ("channel_type"@, opt_text(channel_type)),
        ("protocol"@, opt_text(protocol)),
        ("limit"@, opt_decimal(limit)),
        ("offset"@, opt_decimal(offset)),
    ]
}

/// `channels_list`: the channels matching the filters.
pub fn list(p: ChannelsListParams) -> (req: ApiRequest)
    ensures
        is_request(
            req,
            Method::Get,
            collection(Resource::Channels) + query_text(filters(p.status, p.channel_type, p.protocol, p.limit, p.offset)),
            None,
            ResponseKind::Json,
        ),
{
    let ghost (s, c, t, l, o) = (p.status, p.channel_type, p.protocol, p.limit, p.offset);
    let params = [
        ("status", p.status),
        ("channel_type", p.channel_type),
        ("protocol", p.protocol),
        ("limit", opt_number(p.limit)),
        ("offset", opt_number(p.offset)),
    ];
    proof {
        lemma_query_view(params@);
        reveal_strlit("status");
        reveal_strlit("channel_type");
        reveal_strlit("protocol");
        reveal_strlit("limit");
        reveal_strlit("offset");
        assert(params@.map_values(|q: (&str, Option<String>)| pair_view(q)) =~= filters(s, c, t, l, o));
    }
    list_request(Resource::Channels, &params)
}

/// `channels_get`: one channel.
pub fn get(p: &ChannelsGetParams) -> (req: ApiRequest)
    ensures
        is_request(req, Method::Get, item_path(Resource::Channels, p.id@), None, ResponseKind::Json),
{
    get_request(Resource::Channels, p.id.as_str())
}

/// `channels_create`: creates a channel from its JSON definition.
pub fn create(p: &ChannelsCreateParams) -> (req: Result<ApiRequest, String>)
    ensures
        match serde_json_parse(p.channel_json@) {
            Ok(c) => req is Ok && is_request(
                req->Ok_0,
                Method::Post,
                collection(Resource::Channels),
                Some(c),
                ResponseKind::Json,
            ),
            Err(e) => req is Err && req->Err_0@ == invalid_json_message("channel"@, e),
        },
{
    let body = parse_param(p.channel_json.as_str(), "channel")?;
    Ok(create_request(Resource::Channels, body))
}

/// `channels_update`: replaces a channel's definition.
pub fn update(p: &ChannelsUpdateParams) -> (req: Result<ApiRequest, String>)
    ensures
        match serde_json_parse(p.channel_json@) {
            Ok(c) => req is Ok && is_request(
                req->Ok_0,
                Method::Put,
                item_path(Resource::Channels, p.id@),
                Some(c),
                ResponseKind::Json,
            ),
            Err(e) => req is Err && req->Err_0@ == invalid_json_message("channel"@, e),
        },
{
    let body = parse_param(p.channel_json.as_str(), "channel")?;
    Ok(update_request(Resource::Channels, p.id.as_str(), body))
}

/// `channels_delete`: deletes a channel.
pub fn delete(p: &ChannelsDeleteParams) -> (req: ApiRequest)
    ensures
        is_request(req, Method::Delete, item_path(Resource::Channels, p.id@), None, ResponseKind::Nothing),
{
    delete_request(Resource::Channels, p.id.as_str())
}

/// `channels_activate`: sets the status to "active".
pub fn activate(p: &ChannelsStatusParams) -> (req: ApiRequest)
    ensures
        is_request(
            req,
            Method::Patch,
            item_path(Resource::Channels, p.id@) + "/status"@,
            Some(object1("status"@, JsonValue::Str("active"@))),
            ResponseKind::Json,
        ),
{
    status_request(Resource::Channels, p.id.as_str(), "active")
}

/// `channels_archive`: sets the status to "archived".
pub fn archive(p: &ChannelsStatusParams) -> (req: ApiRequest)
    ensures
        is_request(
            req,
            Method::Patch,
            item_path(Resource::Channels, p.id@) + "/status"@,
            Some(object1("status"@, JsonValue::Str("archived"@))),
            ResponseKind::Json,
        ),
{
    status_request(Resource::Channels, p.id.as_str(), "archived")
}

/// `channels_import`: a bulk import (validated only with `dry_run`).
pub fn import(p: &ChannelsImportParams) -> (req: Result<ApiRequest, String>)
    ensures
        import_plan_spec(
            Resource::Channels,
            "channel"@,
            p.channels_json@,
            match p.dry_run {
                Some(b) => b,
                None => false,
            },
            req,
        ),
{
    let dry = match p.dry_run {
        Some(b) => b,
        None => false,
    };
    import_plan(Resource::Channels, "channel", p.channels_json.as_str(), dry)
}

/// `channels_versions`: the version history.
pub fn versions(p: &ChannelsVersionsParams) -> (req: ApiRequest)
    ensures
        is_request(req, Method::Get, item_path(Resource::Channels, p.id@) + "/versions"@, None, ResponseKind::Json),
{
    versions_request(Resource::Channels, p.id.as_str())
}

/// `channels_create_version`: a new draft version.
pub fn create_version(p: &ChannelsVersionsParams) -> (req: ApiRequest)
    ensures
        is_request(req, Method::Post, item_path(Resource::Channels, p.id@) + "/versions"@, None, ResponseKind::Json),
{
    new_version_request(Resource::Channels, p.id.as_str())
}

/// The query of `channels_list` holds exactly one `key=value` part per filter
/// given a value, in the order status, channel_type, protocol, limit, offset, and none for
/// a filter left out; in particular a given offset is the query's last part.
pub proof fn law_channels_query(
    status: Option<String>,
    channel_type: Option<String>,
    protocol: Option<String>,
    limit: Option<i64>,
    offset: Option<i64>,
)
    ensures
        parts_of(filters(status, channel_type, protocol, limit, offset)) == present_part("status"@, string_value(status)) + present_part("channel_type"@, string_value(channel_type)) + present_part("protocol"@, string_value(protocol)) + present_part("limit"@, number_value(limit)) + present_part("offset"@, number_value(offset)),
        offset matches Some(n) ==> ends_with(query_text(filters(status, channel_type, protocol, limit, offset)), "offset="@ + int_decimal(n as int)),
{
    let f = filters(status, channel_type, protocol, limit, offset);
    reveal_strlit("status");
    reveal_strlit("channel_type");
    reveal_strlit("protocol");
    reveal_strlit("limit");
    reveal_strlit("offset");
    reveal_strlit("offset=");
    assert(f =~= Seq::<(Seq<char>, Option<Seq<char>>)>::empty().push(f[0]).push(f[1]).push(f[2]).push(f[3]).push(f[4]));
    lemma_parts_push(Seq::<(Seq<char>, Option<Seq<char>>)>::empty(), f[0]);
    lemma_parts_push(Seq::<(Seq<char>, Option<Seq<char>>)>::empty().push(f[0]), f[1]);
    lemma_parts_push(Seq::<(Seq<char>, Option<Seq<char>>)>::empty().push(f[0]).push(f[1]), f[2]);
    lemma_parts_push(Seq::<(Seq<char>, Option<Seq<char>>)>::empty().push(f[0]).push(f[1]).push(f[2]), f[3]);
    lemma_parts_push(Seq::<(Seq<char>, Option<Seq<char>>)>::empty().push(f[0]).push(f[1]).push(f[2]).push(f[3]), f[4]);
    assert(parts_of(Seq::<(Seq<char>, Option<Seq<char>>)>::empty()) =~= Seq::<Seq<char>>::empty());
    if let Some(n) = offset {
        lemma_query_ends_with_last(f);
        assert(parts_of(f).last() =~= "offset="@ + int_decimal(n as int));
    }
}

} // verus!
