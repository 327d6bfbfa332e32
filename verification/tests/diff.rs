use orion_cli::diff::{diff_against_export, diff_items, entry_line, summary_line, DiffMark};

fn json(s: &str) -> serde_json::Value {
    serde_json::from_str(s).unwrap()
}

fn list(s: &str) -> Vec<serde_json::Value> {
    serde_json::from_str(s).unwrap()
}

#[test]
fn diff_marks_each_item() {
    let local = list(
        r#"[
        {"name":"same","condition":true,"tasks":[1]},
        {"name":"changed","condition":{"a":1},"tasks":[]},
        {"name":"brand-new"},
        {"title":"no name"}
    ]"#,
    );
    let server = list(
        r#"[
        {"name":"same","condition_json":"true","tasks_json":"[1]"},
        {"name":"changed","condition_json":"{\"a\":2}","tasks_json":"[]"},
        {"name":"gone"}
    ]"#,
    );
    let r = diff_items(&local, &server);
    let got: Vec<(DiffMark, String)> = r.entries.iter().map(|e| (e.mark, e.name.clone())).collect();
    assert_eq!(
        got,
        vec![
            (DiffMark::Unchanged, "same".to_string()),
            (DiffMark::Modified, "changed".to_string()),
            (DiffMark::New, "brand-new".to_string()),
            (DiffMark::New, "(unnamed)".to_string()),
            (DiffMark::Deleted, "gone".to_string()),
        ]
    );
    assert_eq!((r.new_count, r.modified_count, r.deleted_count, r.unchanged_count), (2, 1, 1, 1));
    assert_eq!(r.new_count + r.modified_count + r.unchanged_count, local.len());
}

#[test]
fn later_server_items_with_the_same_name_win() {
    let local = list(r#"[{"name":"dup","condition":1}]"#);
    let server = list(r#"[{"name":"dup","condition_json":"1"},{"name":"dup","condition_json":"2"}]"#);
    let r = diff_items(&local, &server);
    assert_eq!(r.entries[0].mark, DiffMark::Modified);
    assert_eq!(r.deleted_count, 0);
}

#[test]
fn empty_sides() {
    let local = list(r#"[{"name":"a"},{"name":"b"}]"#);
    let r = diff_items(&local, &[]);
    assert_eq!(r.new_count, 2);
    assert_eq!(r.deleted_count, 0);
    let server = list(r#"[{"name":"a"},{"other":1}]"#);
    let r2 = diff_items(&[], &server);
    assert_eq!(r2.deleted_count, 2);
    assert_eq!(r2.entries[1].name, "");
}

#[test]
fn diff_against_export_reads_data() {
    let local = list(r#"[{"name":"x"}]"#);
    let r = diff_against_export(&local, &json(r#"{"data":[{"name":"x"},{"name":"y"}]}"#));
    assert_eq!(r.unchanged_count, 1);
    assert_eq!(r.deleted_count, 1);
    let none = diff_against_export(&local, &json(r#"{"data":"oops"}"#));
    assert_eq!(none.new_count, 1);
}

#[test]
fn diff_lines() {
    colored::control::set_override(false);
    let local = list(r#"[{"name":"a"}]"#);
    let r = diff_items(&local, &[]);
    assert_eq!(entry_line(&r.entries[0]), "  + a");
    assert_eq!(summary_line(&r), "  1 new, 0 modified, 0 deleted, 0 unchanged");
}

#[test]
fn later_server_item_with_a_name_wins() {
    let local = list(r#"[{"name":"a","condition":1}]"#);
    let later_differs = list(r#"[{"name":"a","condition_json":"1"},{"name":"a","condition_json":"2"}]"#);
    let r = diff_items(&local, &later_differs);
    assert_eq!((r.modified_count, r.unchanged_count, r.deleted_count), (1, 0, 0));
    let later_same = list(r#"[{"name":"a","condition_json":"2"},{"name":"a","condition_json":"1"}]"#);
    let r2 = diff_items(&local, &later_same);
    assert_eq!((r2.modified_count, r2.unchanged_count, r2.deleted_count), (0, 1, 0));
}
