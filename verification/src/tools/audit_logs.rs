//! The audit log tool.
use vstd::prelude::*;
use crate::api::{audit_logs_request, is_request, paging_query, ApiRequest, Method, ResponseKind};

verus! {

/// Parameters of `audit_logs_list`.
pub struct AuditLogsListParams {
    pub limit: Option<i64>,
    pub offset: Option<i64>,
}

/// `audit_logs_list`: a page of the audit log.
pub fn list(p: &AuditLogsListParams) -> (req: ApiRequest)
    ensures
        is_request(
            req,
            Method::Get,
            "/api/v1/admin/audit-logs"@ + paging_query(p.limit, p.offset),
            None,
            ResponseKind::Json,
        ),
{
    audit_logs_request(p.limit, p.offset)
}

} // verus!
