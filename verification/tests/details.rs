use orion_cli::details::{
    channel_details, connector_details, job_details, rule_details, trace_details,
    workflow_details,
};
use orion_cli::text::Tone;
use orion_cli::view::Doc;

fn json(s: &str) -> serde_json::Value {
    serde_json::from_str(s).unwrap()
}

fn texts(d: &Doc) -> Vec<String> {
    d.lines.iter().map(|l| l.iter().map(|s| s.text.clone()).collect::<String>()).collect()
}

#[test]
fn workflow_details_lines() {
    let resp = json(
        r#"{"data":{"workflow_id":"wf-1","name":"Orders","status":"active","priority":5,
        "rollout_percentage":50,"version":3,"tags":["a","b"],"continue_on_error":true,
        "created_at":"2024-01-01","updated_at":null,"condition_json":"{\"x\":1}","tasks_json":"not json"}}"#,
    );
    let d = workflow_details(&resp, false);
    assert_eq!(
        texts(&d),
        vec![
            "Workflow Details",
            "  ID:          wf-1",
            "  Name:        Orders",
            "  Description: (none)",
            "  Status:      active",
            "  Priority:    5",
            "  Rollout:     50%",
            "  Version:     3",
            "  Tags:        [\"a\",\"b\"]",
            "  Continue on error: true",
            "  Created:     \"2024-01-01\"",
            "  Updated:     null",
        ]
    );
    assert_eq!(d.lines[4][1].tone, Some(Tone::Green));
    let v = workflow_details(&resp, true);
    let t = texts(&v);
    assert_eq!(t.len(), 18);
    assert_eq!(t[13], "Condition:");
    assert_eq!(t[14], "{\n  \"x\": 1\n}");
    assert_eq!(t[17], "\"not json\"");
}

#[test]
fn rule_details_lines() {
    let resp = json(r#"{"data":{"id":"r1","name":"R","channel":"orders","status":"paused","version":2},"version_count":4}"#);
    let t = texts(&rule_details(&resp, false));
    assert_eq!(t[4], "  Channel:     orders");
    assert_eq!(t[7], "  Version:     2 (4 total)");
    assert_eq!(t[9], "  Continue on error: false");
}

#[test]
fn channel_details_optional_lines() {
    let resp = json(
        r#"{"data":{"channel_id":"c1","name":"In","methods":["GET",1,"POST"],"route_pattern":"",
        "topic":"t1","config":{"k":"v"}}}"#,
    );
    let t = texts(&channel_details(&resp));
    assert!(t.contains(&"  Methods:      GET, POST".to_string()));
    assert!(!t.iter().any(|l| l.starts_with("  Route:")));
    assert!(t.contains(&"  Topic:        t1".to_string()));
    assert_eq!(t[t.len() - 2], "Config:");
    let bare = json(r#"{"data":{"config":null}}"#);
    let tb = texts(&channel_details(&bare));
    assert_eq!(tb.last().unwrap(), "  Updated:      null");
}

#[test]
fn connector_details_lines() {
    let resp = json(r#"{"data":{"id":"k","name":"n","connector_type":"http","enabled":true,"config_json":"{\"url\":\"u\"}"}}"#);
    let d = connector_details(&resp);
    let t = texts(&d);
    assert_eq!(t[4], "  Enabled: yes");
    assert_eq!(d.lines[4][1].tone, Some(Tone::Green));
    assert_eq!(t[t.len() - 1], "{\n  \"url\": \"u\"\n}");
}

#[test]
fn trace_details_sections() {
    let resp = json(
        r#"{"id":"t1","mode":"async","status":"failed","duration_ms":12.34,
        "error_message":"boom","task_trace_json":"[1]"}"#,
    );
    let t = texts(&trace_details(&resp));
    assert!(t.contains(&"  Duration:  12.3ms".to_string()));
    assert!(t.contains(&"Error: boom".to_string()));
    assert_eq!(t[t.len() - 2], "Task trace:");
    let done = json(r#"{"status":"completed","result_json":"{\"ok\":1}"}"#);
    let td = texts(&trace_details(&done));
    assert!(td.contains(&"Result:".to_string()));
    let unknown = texts(&trace_details(&json("{}")));
    assert_eq!(unknown[3], "  Status:    unknown");
}

#[test]
fn job_details_sections() {
    let resp = json(r#"{"id":"j1","status":"completed","result":{"n":1},"started_at":"s"}"#);
    let d = job_details(&resp);
    let t = texts(&d);
    assert_eq!(t[2], "  Status:    completed");
    assert_eq!(d.lines[2][1].tone, Some(Tone::Green));
    assert_eq!(t[4], "  Started:   s");
    assert_eq!(t[t.len() - 2], "Result:");
    let failed = texts(&job_details(&json(r#"{"status":"failed","error":"bad"}"#)));
    assert_eq!(failed.last().unwrap(), "Error: bad");
}
