//! The trace tools.
use vstd::prelude::*;
use crate::api::{is_request, opt_number, trace_request, traces_list_request, ApiRequest, Method, ResponseKind};
use crate::text::{lemma_parts_push, number_value, present_part, string_value, parts_of, lemma_query_view, opt_decimal, opt_text, pair_view, query_text};

verus! {

/// Parameters of `traces_list`.
pub struct TracesListParams {
    pub status: Option<String>,
    pub channel: Option<String>,
    pub mode: Option<String>,
    pub limit: Option<i64>,
    pub offset: Option<i64>,
    pub sort_by: Option<String>,
    pub sort_order: Option<String>,
}

/// Parameters of `traces_get`.
pub struct TracesGetParams {
    pub id: String,
}

/// The filters of a trace list, as query parameters, in the order the tool
/// sends them.
pub open spec fn filters(p: TracesListParams) -> Seq<(Seq<char>, Option<Seq<char>>)> {
    seq![
        ("status"@, opt_text(p.status)),
        ("channel"@, opt_text(p.channel)),
        ("mode"@, opt_text(p.mode)),
        ("limit"@, opt_decimal(p.limit)),
        ("offset"@, opt_decimal(p.offset)),
        ("sort_by"@, opt_text(p.sort_by)),
        ("sort_order"@, opt_text(p.sort_order)),
    ]
}

/// `traces_list`: the traces matching the filters.
pub fn list(p: TracesListParams) -> (req: ApiRequest)
    ensures
        is_request(req, Method::Get, "/api/v1/data/traces"@ + query_text(filters(p)), None, ResponseKind::Json),
{
    let ghost q = p;
    let params = [
        ("status", p.status),
        ("channel", p.channel),
        ("mode", p.mode),
        ("limit", opt_number(p.limit)),
        ("offset", opt_number(p.offset)),
        ("sort_by", p.sort_by),
        ("sort_order", p.sort_order),
    ];
    proof {
        lemma_query_view(params@);
        reveal_strlit("status");
        reveal_strlit("channel");
        reveal_strlit("mode");
        reveal_strlit("limit");
        reveal_strlit("offset");
        reveal_strlit("sort_by");
        reveal_strlit("sort_order");
        assert(params@.map_values(|x: (&str, Option<String>)| pair_view(x)) =~= filters(q));
    }
    traces_list_request(&params)
}

/// `traces_get`: one trace.
pub fn get(p: &TracesGetParams) -> (req: ApiRequest)
    ensures
        is_request(req, Method::Get, "/api/v1/data/traces/"@ + p.id@, None, ResponseKind::Json),
{
    trace_request(p.id.as_str())
}

/// The query of `traces_list` holds exactly one `key=value` part per filter
/// given a value, in the order status, channel, mode, limit, offset,
/// sort_by, sort_order, and none for a filter left out.
pub proof fn law_traces_query(p: TracesListParams)
    ensures
        parts_of(filters(p)) == present_part("status"@, string_value(p.status)) + present_part("channel"@, string_value(p.channel)) + present_part("mode"@, string_value(p.mode)) + present_part("limit"@, number_value(p.limit)) + present_part("offset"@, number_value(p.offset)) + present_part("sort_by"@, string_value(p.sort_by)) + present_part("sort_order"@, string_value(p.sort_order)),
{
    let f = filters(p);
    reveal_strlit("status");
    reveal_strlit("channel");
    reveal_strlit("mode");
    reveal_strlit("limit");
    reveal_strlit("offset");
    reveal_strlit("sort_by");
    reveal_strlit("sort_order");
    assert(f =~= Seq::<(Seq<char>, Option<Seq<char>>)>::empty().push(f[0]).push(f[1]).push(f[2]).push(f[3]).push(f[4]).push(f[5]).push(f[6]));
    lemma_parts_push(Seq::<(Seq<char>, Option<Seq<char>>)>::empty(), f[0]);
    lemma_parts_push(Seq::<(Seq<char>, Option<Seq<char>>)>::empty().push(f[0]), f[1]);
    lemma_parts_push(Seq::<(Seq<char>, Option<Seq<char>>)>::empty().push(f[0]).push(f[1]), f[2]);
    lemma_parts_push(Seq::<(Seq<char>, Option<Seq<char>>)>::empty().push(f[0]).push(f[1]).push(f[2]), f[3]);
    lemma_parts_push(Seq::<(Seq<char>, Option<Seq<char>>)>::empty().push(f[0]).push(f[1]).push(f[2]).push(f[3]), f[4]);
    lemma_parts_push(Seq::<(Seq<char>, Option<Seq<char>>)>::empty().push(f[0]).push(f[1]).push(f[2]).push(f[3]).push(f[4]), f[5]);
    lemma_parts_push(Seq::<(Seq<char>, Option<Seq<char>>)>::empty().push(f[0]).push(f[1]).push(f[2]).push(f[3]).push(f[4]).push(f[5]), f[6]);
    assert(parts_of(Seq::<(Seq<char>, Option<Seq<char>>)>::empty()) =~= Seq::<Seq<char>>::empty());
}

} // verus!
