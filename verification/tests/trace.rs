use orion_cli::trace::trace_lines;

fn value(text: &str) -> serde_json::Value {
    serde_json::from_str(text).unwrap()
}

#[test]
fn trace_steps_are_numbered_and_nested() {
    let t = value(r#"{"steps":[{"name":"a","result":true,"steps":[{"x":1}]},"plain"]}"#);
    assert_eq!(
        trace_lines(&t, 1),
        vec![
            "  Step 1".to_string(),
            "    name: a".to_string(),
            "    result: true".to_string(),
            "    Step 1".to_string(),
            "      x: 1".to_string(),
            "  Step 2".to_string(),
        ]
    );
}

#[test]
fn trace_without_steps_shows_fields_pretty() {
    let t = value(r#"{"b":[1,2],"a":"x"}"#);
    assert_eq!(
        trace_lines(&t, 1),
        vec!["  a: \"x\"".to_string(), "  b: [\n  1,\n  2\n]".to_string()]
    );
}

#[test]
fn trace_steps_not_an_array_falls_back_to_fields() {
    let t = value(r#"{"steps":"none"}"#);
    assert_eq!(trace_lines(&t, 0), vec!["steps: \"none\"".to_string()]);
}

#[test]
fn trace_of_a_scalar_is_empty() {
    assert!(trace_lines(&value("3"), 2).is_empty());
}
