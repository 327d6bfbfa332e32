//! The data tools: sending a payload to a channel.
use vstd::prelude::*;
use crate::api::{is_request, send_async_request, send_sync_request, ApiRequest, Method, ResponseKind};
use crate::send::send_path;
use crate::tools::{data_params, data_params_body};

verus! {

/// Parameters of `data_send_sync`.
pub struct DataSendSyncParams {
    pub channel: String,
    pub data: String,
    pub metadata: Option<String>,
}

/// Parameters of `data_send_async`.
pub struct DataSendAsyncParams {
    pub channel: String,
    pub data: String,
    pub metadata: Option<String>,
}

/// The request a send tool makes from its parameters.
pub open spec fn send_plan_spec(
    channel: Seq<char>,
    data: Seq<char>,
    metadata: Option<String>,
    async_mode: bool,
    req: Result<ApiRequest, String>,
) -> bool {
    match data_params_body(
        data,
        match metadata {
            Some(m) => Some(m@),
            None => None,
        },
        "data"@,
    ) {
        Ok(b) => req is Ok && is_request(req->Ok_0, Method::Post, send_path(channel, async_mode), Some(b), ResponseKind::Json),
        Err(e) => req is Err && req->Err_0@ == e,
    }
}

fn meta_str(m: &Option<String>) -> (r: Option<&str>)
    ensures
        match r {
            Some(s) => m is Some && s@ == m->Some_0@,
            None => m is None,
        },
{
    match m {
        Some(s) => Some(s.as_str()),
        None => None,
    }
}

/// `data_send_sync`: sends data and waits for the processed result.
pub fn send_sync(p: &DataSendSyncParams) -> (req: Result<ApiRequest, String>)
    ensures
        send_plan_spec(p.channel@, p.data@, p.metadata, false, req),
{
    let body = data_params(p.data.as_str(), meta_str(&p.metadata), "data")?;
    Ok(send_sync_request(p.channel.as_str(), body))
}

/// `data_send_async`: submits data for background processing.
pub fn send_async(p: &DataSendAsyncParams) -> (req: Result<ApiRequest, String>)
    ensures
        send_plan_spec(p.channel@, p.data@, p.metadata, true, req),
{
    let body = data_params(p.data.as_str(), meta_str(&p.metadata), "data")?;
    Ok(send_async_request(p.channel.as_str(), body))
}

} // verus!
