use orion_cli::table::{
    audit_logs_listing, channels_listing, functions_listing, list_outcome, rows_possible,
    rules_listing, traces_listing, workflow_versions_listing, workflows_listing, ListOutcome,
};
use orion_cli::text::Tone;

fn json(s: &str) -> serde_json::Value {
    serde_json::from_str(s).unwrap()
}

fn cells(rows: &[Vec<orion_cli::view::Span>]) -> Vec<Vec<String>> {
    rows.iter().map(|r| r.iter().map(|s| s.text.clone()).collect()).collect()
}

#[test]
fn workflow_rows() {
    let resp = json(
        r#"{"data":[{"workflow_id":"0123456789abcdef","name":"n","status":"draft","priority":2,"rollout_percentage":10,"version":1},
        {"name":"m"}],"total":7}"#,
    );
    match list_outcome(&resp, false, false, &workflows_listing()) {
        ListOutcome::Table { rows, footer } => {
            assert_eq!(
                cells(&rows),
                vec![
                    vec!["012345678...", "n", "draft", "2", "10%", "1"],
                    vec!["", "m", "", "0", "0%", "0"],
                ]
            );
            assert_eq!(rows[0][2].tone, Some(Tone::Blue));
            assert_eq!(footer.lines[0][0].text, "7 workflow(s)");
        }
        _ => panic!("expected a table"),
    }
}

#[test]
fn quiet_empty_and_structured() {
    let resp = json(r#"{"data":[{"id":"a"},{"x":1},{"id":"b"}]}"#);
    match list_outcome(&resp, true, false, &rules_listing()) {
        ListOutcome::Lines(d) => {
            let t: Vec<String> = d.lines.iter().map(|l| l[0].text.clone()).collect();
            assert_eq!(t, vec!["a", "b"]);
        }
        _ => panic!("expected lines"),
    }
    match list_outcome(&json(r#"{"data":[{"version":3},{}]}"#), true, false, &workflow_versions_listing()) {
        ListOutcome::Lines(d) => assert_eq!(d.lines.len(), 2),
        _ => panic!("expected lines"),
    }
    match list_outcome(&json(r#"{"data":[]}"#), false, false, &channels_listing()) {
        ListOutcome::Lines(d) => assert_eq!(d.lines[0][0].text, "No channels found."),
        _ => panic!("expected the empty message"),
    }
    assert!(matches!(list_outcome(&resp, false, true, &rules_listing()), ListOutcome::PrintValue));
}

#[test]
fn footers_and_special_cells() {
    let audit = json(r#"{"data":[{"id":"1"}],"pagination":{"total":40}}"#);
    match list_outcome(&audit, false, false, &audit_logs_listing()) {
        ListOutcome::Table { footer, .. } => assert_eq!(footer.lines[0][0].text, "40 audit log entry(ies)"),
        _ => panic!("expected a table"),
    }
    let funcs = json(r#"{"data":[{"name":"f"},{"name":"g"}],"total":99}"#);
    match list_outcome(&funcs, false, false, &functions_listing()) {
        ListOutcome::Table { footer, .. } => assert_eq!(footer.lines[0][0].text, "2 function(s)"),
        _ => panic!("expected a table"),
    }
    let traces = json(r#"{"data":[{"id":"t","duration_ms":1.25},{"id":"u"}]}"#);
    match list_outcome(&traces, false, false, &traces_listing()) {
        ListOutcome::Table { rows, .. } => {
            assert_eq!(rows[0][4].text, "1.2ms");
            assert_eq!(rows[1][4].text, "-");
        }
        _ => panic!("expected a table"),
    }
    let rules = json(r#"{"data":[{"status":"paused"}]}"#);
    match list_outcome(&rules, false, false, &rules_listing()) {
        ListOutcome::Table { rows, .. } => assert_eq!(rows[0][3].tone, Some(Tone::Yellow)),
        _ => panic!("expected a table"),
    }
}

#[test]
fn multibyte_cells_are_cut_by_characters() {
    let resp = json(r#"{"data":[{"workflow_id":"ééééééééééééé","name":"n"}]}"#);
    assert!(rows_possible(resp["data"].as_array().unwrap(), &workflows_listing().columns));
    match list_outcome(&resp, false, false, &workflows_listing()) {
        ListOutcome::Table { rows, .. } => assert_eq!(rows[0][0].text, "ééééééééé..."),
        _ => panic!("expected a table"),
    }
}
