use orion_cli::commands::{agreed, delete_prompt, input_source, InputSource};
use orion_cli::outcomes::{
    breaker_reset_doc, created_doc, created_outcome, deleted_doc, dry_run_result, new_version_outcome, shown_outcome, updated_outcome, import_check, import_preview, import_result,
    new_version_doc, rollout_doc, status_changed_doc, test_outcome, toggled_doc, updated_doc,
    validate_outcome,
};
use orion_cli::text::Tone;
use orion_cli::view::Doc;

fn json(s: &str) -> serde_json::Value {
    serde_json::from_str(s).unwrap()
}

fn texts(d: &Doc) -> Vec<String> {
    d.lines.iter().map(|l| l.iter().map(|s| s.text.clone()).collect::<String>()).collect()
}

#[test]
fn mutation_messages() {
    let resp = json(r#"{"data":{"name":"Orders","workflow_id":"w1","version":4}}"#);
    assert_eq!(texts(&created_doc("Workflow", &resp, "workflow_id")), vec!["OK Workflow created: Orders (w1)"]);
    assert_eq!(texts(&updated_doc("Channel", &resp)), vec!["OK Channel updated: Orders (v4)"]);
    assert_eq!(texts(&deleted_doc("Rule", "r9")), vec!["OK Rule r9 deleted"]);
    let changed = status_changed_doc("Rule", &json("{}"), "r9", "paused", true);
    assert_eq!(texts(&changed), vec!["OK Rule r9 status changed to paused"]);
    assert_eq!(changed.lines[0][2].tone, Some(Tone::Yellow));
    assert_eq!(texts(&rollout_doc(&resp, "w1", 30)), vec!["OK Workflow Orders rollout set to 30%"]);
    assert_eq!(texts(&new_version_doc("channel", &resp, "c")), vec!["OK New draft version 4 created for channel Orders"]);
    assert_eq!(texts(&toggled_doc(&json("{}"), "k1", false)), vec!["OK Connector k1 disabled"]);
    assert_eq!(texts(&breaker_reset_doc("a:b")), vec!["OK Circuit breaker 'a:b' reset"]);
}

#[test]
fn test_and_validate_outcomes() {
    let hit = json(r#"{"matched":true,"output":{"x":1},"errors":["e1"]}"#);
    let f = test_outcome(&hit, "  Workflow: ", "  Result:   ", "w1", false, false);
    assert_eq!(f.code, 0);
    assert_eq!(
        texts(&f.doc),
        vec!["Test Result", "  Workflow: w1", "  Result:   MATCHED", "", "Output:", "{\n  \"x\": 1\n}", "", "Errors:", "  - \"e1\""]
    );
    let miss = test_outcome(&json("{}"), "  Rule:    ", "  Result:  ", "r", false, true);
    assert_eq!(miss.code, 1);
    assert_eq!(texts(&miss.doc), vec!["no_match"]);
    let v = validate_outcome(&json(r#"{"valid":false,"errors":[{"field":"tasks","message":"empty"}],"warnings":[]}"#), false, false);
    assert_eq!(v.code, 1);
    assert_eq!(texts(&v.doc), vec!["INVALID Workflow definition has issues", "", "Errors:", "  - tasks: empty"]);
    assert_eq!(texts(&validate_outcome(&json(r#"{"valid":true}"#), false, true).doc), vec!["valid"]);
}

#[test]
fn import_outcomes() {
    assert_eq!(import_check(&json("{}"), "workflows").unwrap_err(), "Import file must contain a JSON array of workflows");
    assert!(import_check(&json("[]"), "rules").is_ok());
    let items: Vec<serde_json::Value> = serde_json::from_str(r#"[{"name":"a"},{"channel":"x"}]"#).unwrap();
    assert_eq!(
        texts(&import_preview(&items, "rule", "f.json", true)),
        vec!["DRY RUN Would import 2 rule(s) from f.json", "  1. a (channel: default)", "  2. (unnamed) (channel: x)"]
    );
    let partial = import_result(&json(r#"{"imported":3,"failed":1,"errors":[{"index":2,"error":"dup"}]}"#), "Workflow", false);
    assert_eq!(partial.code, 1);
    assert_eq!(texts(&partial.doc), vec!["PARTIAL Imported: 3, Failed: 1", "  ERR Workflow #2: dup"]);
    let quiet = import_result(&json(r#"{"imported":3,"failed":1}"#), "Rule", true);
    assert_eq!(quiet.code, 0);
    assert_eq!(texts(&quiet.doc), vec!["3"]);
}

#[test]
fn input_and_prompts() {
    assert_eq!(input_source(Some("f"), Some("d"), true).unwrap(), InputSource::File("f".to_string()));
    assert_eq!(input_source(None, Some("d"), true).unwrap(), InputSource::Inline("d".to_string()));
    assert_eq!(input_source(None, None, true).unwrap(), InputSource::Stdin);
    assert_eq!(input_source(None, None, false).unwrap_err(), "Provide input with -f <file>, -d '<json>', or --stdin");
    assert_eq!(delete_prompt("workflow", "w1"), "Delete workflow w1?");
    assert!(agreed(true, "no"));
    assert!(agreed(false, " Y\n"));
    assert!(!agreed(false, "n"));
}

#[test]
fn server_dry_run_report() {
    let r = dry_run_result(
        &json(r#"{"would_create":2,"would_fail":1,"errors":[{"index":0,"error":"bad task"}]}"#),
        "Workflow",
        false,
    );
    assert_eq!(r.code, 0);
    assert!(!r.print_value);
    assert_eq!(texts(&r.doc), vec!["DRY RUN Would create: 2, would fail: 1", "  ERR Workflow #0: bad task"]);
    let clean = dry_run_result(&json(r#"{"would_create":3,"would_fail":0}"#), "Workflow", false);
    assert_eq!(texts(&clean.doc), vec!["DRY RUN Would create: 3, would fail: 0"]);
    assert_eq!(texts(&dry_run_result(&json(r#"{"would_create":3}"#), "Workflow", true).doc), vec!["3"]);
}

#[test]
fn quiet_and_structured_choices() {
    let resp = json(r#"{"data":{"workflow_id":"w1","name":"n","version":4}}"#);
    let q = created_outcome("Workflow", &resp, "workflow_id", false, true);
    assert_eq!((q.code, q.print_value), (0, false));
    assert_eq!(texts(&q.doc), vec!["w1"]);
    let st = created_outcome("Workflow", &resp, "workflow_id", true, false);
    assert!(st.print_value);
    assert!(texts(&st.doc).is_empty());
    assert_eq!(texts(&created_outcome("Workflow", &resp, "workflow_id", false, false).doc), vec!["OK Workflow created: n (w1)"]);
    assert_eq!(texts(&updated_outcome("Workflow", &resp, "w1", false, false, true).doc), vec!["w1"]);
    assert_eq!(texts(&updated_outcome("Workflow", &resp, "w1", false, false, false).doc), vec!["OK Workflow updated: n (v4)"]);
    assert_eq!(texts(&updated_outcome("Connector", &resp, "c1", true, false, false).doc), vec!["OK Connector updated: n"]);
    assert_eq!(texts(&new_version_outcome("workflow", &resp, "w1", false, true).doc), vec!["4"]);
    let shown = shown_outcome(Doc::new(), "id".to_string(), false, true);
    assert_eq!(texts(&shown.doc), vec!["id"]);
}
