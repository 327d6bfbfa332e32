use orion_cli::server::{breakers_view, engine_view, health_view, metrics_view, reloaded_doc};
use orion_cli::view::Doc;

fn json(s: &str) -> serde_json::Value {
    serde_json::from_str(s).unwrap()
}

fn texts(d: &Doc) -> Vec<String> {
    d.lines.iter().map(|l| l.iter().map(|s| s.text.clone()).collect::<String>()).collect()
}

#[test]
fn health_lines() {
    let resp = json(r#"{"status":"ok","version":"1.2","uptime_seconds":3700,"rules_loaded":12,"components":{"db":"ok","cache":"down"}}"#);
    let f = health_view(&resp, false, false);
    assert_eq!(f.code, 0);
    assert_eq!(
        texts(&f.doc),
        vec![
            "Orion Server v1.2",
            "  Status:       OK",
            "  Uptime:       1h 1m",
            "  Rules loaded: 12",
            "  Components:",
            "    cache        ERROR",
            "    db           OK",
        ]
    );
    let degraded = health_view(&json(r#"{"status":"degraded"}"#), false, true);
    assert_eq!(degraded.code, 1);
    assert_eq!(texts(&degraded.doc), vec!["degraded"]);
}

#[test]
fn engine_lines() {
    let f = engine_view(&json(r#"{"version":"2","uptime_seconds":5,"workflows_count":3,"active_workflows":2,"channels":["a",1,"b"]}"#), false, false);
    assert_eq!(
        texts(&f.doc),
        vec!["Engine Status", "  Version:         2", "  Uptime:          5s", "  Total workflows: 3", "  Active:          2", "  Channels:     a, b"]
    );
    let none = engine_view(&json(r#"{"channels":[]}"#), false, false);
    assert_eq!(texts(&none.doc).last().unwrap(), "  Channels:     (none)");
    assert_eq!(texts(&reloaded_doc(&json(r#"{"workflows_count":9}"#))), vec!["OK Engine reloaded with 9 workflow(s)"]);
}

#[test]
fn metrics_parsing() {
    let text = "# HELP x\nreqs_total{ch=\"a\"} 5\r\n\nnospace\nup 1";
    let d = metrics_view(text);
    let t = texts(&d);
    assert_eq!(t.len(), 4);
    assert_eq!(t[0], "Metrics");
    assert_eq!(t[1], "");
    assert_eq!(t[2], format!("  {:<60} 5", "reqs_total (ch=\"a\")"));
    assert_eq!(t[3], format!("  {:<60} 1", "up"));
    assert_eq!(d.lines[3][1].text, "1");
}

#[test]
fn breaker_lines() {
    let f = breakers_view(&json(r#"{"enabled":true,"breakers":{"k:c":"open","a:b":{"n":1}}}"#), false, false);
    assert_eq!(texts(&f.doc), vec!["INFO Circuit breakers: enabled", "  a:b: {\"n\":1}", "  k:c: open"]);
    let empty = breakers_view(&json(r#"{"breakers":{}}"#), false, false);
    assert_eq!(texts(&empty.doc), vec!["INFO Circuit breakers: disabled", "  No active circuit breakers."]);
    assert_eq!(texts(&breakers_view(&json("{}"), false, true).doc), vec!["false"]);
}
