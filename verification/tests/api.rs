use orion_cli::json::{parse_input, parse_items};
use orion_cli::api::{
    audit_logs_request, delete_request, import_request, list_request, rollout_request,
    status_request, test_request, toggle_connector_request, trace_request, Method, Resource,
    ResponseKind,
};

fn json(s: &str) -> serde_json::Value {
    serde_json::from_str(s).unwrap()
}

#[test]
fn list_paths_carry_filters() {
    let r = list_request(Resource::Workflows, &[("status", Some("active".to_string())), ("tag", None)]);
    assert_eq!(r.method, Method::Get);
    assert_eq!(r.path, "/api/v1/admin/workflows?status=active");
    assert!(r.body.is_none());
    assert_eq!(r.response, ResponseKind::Json);
}

#[test]
fn item_requests() {
    let d = delete_request(Resource::Channels, "ch-1");
    assert_eq!(d.method, Method::Delete);
    assert_eq!(d.path, "/api/v1/admin/channels/ch-1");
    assert_eq!(d.response, ResponseKind::Nothing);
    let s = status_request(Resource::Rules, "r1", "paused");
    assert_eq!(s.method, Method::Patch);
    assert_eq!(s.path, "/api/v1/admin/rules/r1/status");
    assert_eq!(s.body.unwrap(), json(r#"{"status":"paused"}"#));
    let ro = rollout_request(Resource::Workflows, "w1", 25);
    assert_eq!(ro.path, "/api/v1/admin/workflows/w1/rollout");
    assert_eq!(ro.body.unwrap(), json(r#"{"rollout_percentage":25}"#));
    let t = toggle_connector_request("c9", false);
    assert_eq!(t.method, Method::Put);
    assert_eq!(t.body.unwrap(), json(r#"{"enabled":false}"#));
    assert_eq!(trace_request("t1").path, "/api/v1/data/traces/t1");
}

#[test]
fn test_bodies_include_metadata() {
    let r = test_request(Resource::Workflows, "w1", json(r#"{"a":1}"#), Some(json(r#"{"m":true}"#)));
    assert_eq!(r.path, "/api/v1/admin/workflows/w1/test");
    assert_eq!(r.body.unwrap(), json(r#"{"data":{"a":1},"metadata":{"m":true}}"#));
    let r2 = test_request(Resource::Rules, "r1", json("[1,2]"), None);
    assert_eq!(r2.body.unwrap(), json(r#"{"data":[1,2]}"#));
}

#[test]
fn import_dry_run_path() {
    let r = import_request(Resource::Connectors, json("[]"), true);
    assert_eq!(r.path, "/api/v1/admin/connectors/import?dry_run=true");
    let r2 = import_request(Resource::Connectors, json("[]"), false);
    assert_eq!(r2.path, "/api/v1/admin/connectors/import");
}

#[test]
fn audit_log_paging() {
    assert_eq!(audit_logs_request(None, None).path, "/api/v1/admin/audit-logs");
    assert_eq!(audit_logs_request(Some(50), None).path, "/api/v1/admin/audit-logs?limit=50");
    assert_eq!(audit_logs_request(None, Some(-3)).path, "/api/v1/admin/audit-logs?offset=-3");
    assert_eq!(audit_logs_request(Some(1), Some(2)).path, "/api/v1/admin/audit-logs?limit=1&offset=2");
}

#[test]
fn input_parsing() {
    let v = parse_input(r#"{"k":[1,"two",null]}"#).unwrap();
    assert_eq!(v, serde_json::from_str::<serde_json::Value>(r#"{"k":[1,"two",null]}"#).unwrap());
    assert!(parse_input("{not json").is_err());
    assert_eq!(parse_items(r#"[{"name":"x"},2]"#).unwrap().len(), 2);
    assert!(parse_items(r#"{"name":"x"}"#).is_err());
}
