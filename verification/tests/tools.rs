use orion_cli::api::Method;
use orion_cli::tools::audit_logs::{self, AuditLogsListParams};
use orion_cli::tools::channels::{self, ChannelsImportParams, ChannelsListParams};
use orion_cli::tools::connectors::{self, ConnectorsListParams, ConnectorsToggleParams};
use orion_cli::tools::data::{self, DataSendAsyncParams, DataSendSyncParams};
use orion_cli::tools::rules::{self, RulesImport, RulesImportParams, RulesListParams, RulesStatusParams};
use orion_cli::tools::traces::{self, TracesListParams};
use orion_cli::tools::workflows::{self, WorkflowsCreateParams, WorkflowsListParams, WorkflowsTestParams};
use orion_cli::tools::{deleted_reply, export_reply, reply};

fn json(s: &str) -> serde_json::Value {
    serde_json::from_str(s).unwrap()
}

#[test]
fn workflow_tools() {
    let r = workflows::list(WorkflowsListParams { status: None, tag: Some("x".to_string()), limit: Some(5), offset: None });
    assert_eq!(r.path, "/api/v1/admin/workflows?tag=x&limit=5");
    let c = workflows::create(&WorkflowsCreateParams { workflow_json: r#"{"name":"a"}"#.to_string() }).unwrap();
    assert_eq!(c.method, Method::Post);
    assert_eq!(c.body.unwrap(), json(r#"{"name":"a"}"#));
    let e = workflows::create(&WorkflowsCreateParams { workflow_json: "{".to_string() }).unwrap_err();
    assert!(e.starts_with("Invalid workflow JSON: "));
    let t = workflows::test(&WorkflowsTestParams { id: "w".to_string(), data: "[".to_string(), metadata: None }).unwrap_err();
    assert!(t.starts_with("Invalid test data JSON: "));
    let m = workflows::test(&WorkflowsTestParams { id: "w".to_string(), data: "1".to_string(), metadata: Some("x".to_string()) }).unwrap_err();
    assert!(m.starts_with("Invalid metadata JSON: "));
}

#[test]
fn rule_tools() {
    let r = rules::list(RulesListParams { status: Some("active".to_string()), channel: Some("c".to_string()), tag: None, limit: None, offset: Some(10) });
    assert_eq!(r.path, "/api/v1/admin/rules?status=active&channel=c&offset=10");
    let p = rules::pause(&RulesStatusParams { id: "r".to_string() });
    assert_eq!(p.body.unwrap(), json(r#"{"status":"paused"}"#));
    match rules::import(&RulesImportParams { rules_json: r#"[{"name":"a"},{"channel":"c"}]"#.to_string(), dry_run: Some(true) }).unwrap() {
        RulesImport::Preview(t) => assert_eq!(
            t,
            "Dry run: would import 2 rule(s)\n  1. a (channel: default)\n  2. (unnamed) (channel: c)\n"
        ),
        RulesImport::Send(_) => panic!("expected a preview"),
    }
    match rules::import(&RulesImportParams { rules_json: "[]".to_string(), dry_run: None }).unwrap() {
        RulesImport::Send(req) => assert_eq!(req.path, "/api/v1/admin/rules/import"),
        RulesImport::Preview(_) => panic!("expected a request"),
    }
    let e = rules::import(&RulesImportParams { rules_json: "{}".to_string(), dry_run: None });
    assert_eq!(e.err().unwrap(), "Import data must be a JSON array of rules");
}

#[test]
fn channel_connector_tools() {
    let r = channels::list(ChannelsListParams { status: None, channel_type: Some("sync".to_string()), protocol: Some("rest".to_string()), limit: None, offset: None });
    assert_eq!(r.path, "/api/v1/admin/channels?channel_type=sync&protocol=rest");
    let i = channels::import(&ChannelsImportParams { channels_json: r#"{"a":1}"#.to_string(), dry_run: Some(true) });
    assert_eq!(i.err().unwrap(), "Import data must be a JSON array of channels");
    let ok = channels::import(&ChannelsImportParams { channels_json: "[]".to_string(), dry_run: Some(true) }).unwrap();
    assert_eq!(ok.path, "/api/v1/admin/channels/import?dry_run=true");
    assert_eq!(connectors::list(ConnectorsListParams { limit: Some(2), offset: Some(4) }).path, "/api/v1/admin/connectors?limit=2&offset=4");
    let en = connectors::enable(&ConnectorsToggleParams { id: "k".to_string() });
    assert_eq!(en.body.unwrap(), json(r#"{"enabled":true}"#));
}

#[test]
fn data_trace_audit_tools() {
    let s = data::send_sync(&DataSendSyncParams { channel: "c".to_string(), data: r#"{"a":1}"#.to_string(), metadata: None }).unwrap();
    assert_eq!(s.path, "/api/v1/data/c");
    let a = data::send_async(&DataSendAsyncParams { channel: "c".to_string(), data: "x".to_string(), metadata: None });
    assert!(a.err().unwrap().starts_with("Invalid data JSON: "));
    let t = traces::list(TracesListParams { status: None, channel: None, mode: None, limit: Some(1), offset: None, sort_by: Some("status".to_string()), sort_order: None });
    assert_eq!(t.path, "/api/v1/data/traces?limit=1&sort_by=status");
    assert_eq!(audit_logs::list(&AuditLogsListParams { limit: None, offset: Some(3) }).path, "/api/v1/admin/audit-logs?offset=3");
}

#[test]
fn tool_replies() {
    assert_eq!(deleted_reply("Workflow", "w1"), "Workflow w1 deleted successfully");
    assert_eq!(reply(&json(r#"{"a":1}"#)), "{\n  \"a\": 1\n}");
    assert_eq!(export_reply(&json(r#"{"data":[1]}"#)), "[\n  1\n]");
    assert_eq!(export_reply(&json("[2]")), "[\n  2\n]");
}

#[test]
fn rules_list_path_is_query_string_of_filters() {
    let r = rules::list(RulesListParams {
        status: Some("active".to_string()),
        channel: None,
        tag: Some("t".to_string()),
        limit: Some(5),
        offset: None,
    });
    let q = orion_cli::text::build_query_string(&[
        ("status", Some("active".to_string())),
        ("channel", None),
        ("tag", Some("t".to_string())),
        ("limit", Some("5".to_string())),
        ("offset", None),
    ]);
    assert_eq!(r.path, format!("/api/v1/admin/rules{q}"));
    assert_eq!(r.path, "/api/v1/admin/rules?status=active&tag=t&limit=5");
}
