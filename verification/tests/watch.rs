use orion_cli::send::{async_wait_outcome, poll_finished, poll_target, send_request, submitted_doc, sync_outcome};
use orion_cli::watch::{status_exit_code, timeout_doc, wait_step, WaitStep};
use orion_cli::view::Doc;

fn json(s: &str) -> serde_json::Value {
    serde_json::from_str(s).unwrap()
}

fn texts(d: &Doc) -> Vec<String> {
    d.lines.iter().map(|l| l.iter().map(|s| s.text.clone()).collect::<String>()).collect()
}

#[test]
fn exit_codes_by_status() {
    assert_eq!(status_exit_code("completed"), 0);
    assert_eq!(status_exit_code("failed"), 1);
    assert_eq!(status_exit_code("running"), 0);
}

#[test]
fn wait_steps() {
    let running = json(r#"{"status":"running"}"#);
    assert!(matches!(wait_step(&running, false, false, false, 3, 60), WaitStep::Again));
    match wait_step(&running, true, false, false, 60, 60) {
        WaitStep::Stop(f) => {
            assert_eq!(f.code, 2);
            assert_eq!(texts(&f.doc), vec!["TIMEOUT Timed out after 60s (status: running)"]);
        }
        WaitStep::Again => panic!("expected a timeout"),
    }
    let done = json(r#"{"status":"completed","result":{"x":1}}"#);
    match wait_step(&done, false, false, false, 0, 60) {
        WaitStep::Stop(f) => {
            assert_eq!(f.code, 0);
            assert_eq!(texts(&f.doc)[0], "OK Job completed");
        }
        WaitStep::Again => panic!("expected to stop"),
    }
    let failed = json(r#"{"status":"failed","error_message":"x"}"#);
    match wait_step(&failed, true, false, false, 0, 60) {
        WaitStep::Stop(f) => {
            assert_eq!(f.code, 1);
            assert_eq!(texts(&f.doc), vec!["ERR Trace failed: x"]);
        }
        WaitStep::Again => panic!("expected to stop"),
    }
    match wait_step(&failed, false, true, false, 0, 60) {
        WaitStep::Stop(f) => {
            assert!(f.print_value);
            assert!(f.doc.lines.is_empty());
        }
        WaitStep::Again => panic!("expected to stop"),
    }
    assert_eq!(texts(&timeout_doc(5, "pending")), vec!["TIMEOUT Timed out after 5s (status: pending)"]);
}

#[test]
fn send_requests_and_outcomes() {
    let r = send_request("orders", json(r#"{"a":1}"#), Some(r#"{"m":1}"#), true).unwrap();
    assert_eq!(r.path, "/api/v1/data/orders/async");
    assert_eq!(r.body.unwrap(), json(r#"{"data":{"a":1},"metadata":{"m":1}}"#));
    assert!(send_request("orders", json("1"), Some("{bad"), false).is_err());
    let ok = sync_outcome(&json(r#"{"status":"ok","id":"i1","errors":["w"]}"#), "orders", false, false, false);
    assert_eq!(ok.code, 0);
    assert_eq!(texts(&ok.doc), vec!["OK Processed on channel 'orders' (i1)", "  WARN \"w\""]);
    let bad = sync_outcome(&json(r#"{"status":"error"}"#), "c", false, true, false);
    assert_eq!(bad.code, 1);
    assert_eq!(texts(&bad.doc), vec![""]);
    assert_eq!(texts(&submitted_doc(&json(r#"{"trace_id":"t"}"#), false, false)), vec!["OK Trace submitted: t"]);
    assert!(poll_finished(&json(r#"{"status":"completed"}"#), 0, 10));
    assert!(!poll_finished(&json("{}"), 9, 10));
    assert!(poll_finished(&json("{}"), 10, 10));
    let timed = async_wait_outcome(&json(r#"{"status":"running"}"#), false, false);
    assert_eq!(timed.code, 2);
    assert_eq!(texts(&timed.doc), vec!["TIMEOUT Timed out (status: running)"]);
}

#[test]
fn structured_async_wait_codes() {
    let timed = async_wait_outcome(&json(r#"{"status":"running"}"#), true, false);
    assert_eq!(timed.code, 1);
    assert!(timed.print_value);
    assert_eq!(async_wait_outcome(&json(r#"{"status":"failed"}"#), true, false).code, 1);
    assert_eq!(async_wait_outcome(&json(r#"{"status":"completed"}"#), true, false).code, 0);
    assert_eq!(async_wait_outcome(&json(r#"{"status":"failed"}"#), false, true).code, 1);
}

#[test]
fn null_trace_id_skips_polling() {
    let null_id = json(r#"{"trace_id":null}"#);
    assert_eq!(poll_target(&null_id, true), None);
    assert_eq!(texts(&submitted_doc(&null_id, false, true)), vec!["OK Trace submitted: "]);
    assert_eq!(poll_target(&json(r#"{"trace_id":"t"}"#), true), Some("t".to_string()));
    assert_eq!(poll_target(&json(r#"{"trace_id":"t"}"#), false), None);
    assert!(texts(&submitted_doc(&json(r#"{"trace_id":"t"}"#), false, true)).is_empty());
}
