use orion_cli::strings::{i64_to_string, str_eq, u64_to_string};
use orion_cli::text::{
    build_query_string, can_mask, can_truncate, colorize_job_status, colorize_status,
    format_duration, is_confirmed, mask_secret, paint_opt, truncate, Tone,
};

#[test]
fn truncate_keeps_short_text() {
    assert_eq!(truncate("hello", 12), "hello");
    assert_eq!(truncate("exactly-12ch", 12), "exactly-12ch");
}

#[test]
fn truncate_cuts_long_text_with_ellipsis() {
    assert_eq!(truncate("abcdefghijklmnop", 12), "abcdefghi...");
    assert_eq!(truncate("abcdefghijklmnop", 12).len(), 12);
}

#[test]
fn truncate_counts_characters() {
    // "é" takes two bytes: cutting at byte 1 is not allowed.
    assert!(can_truncate("éééé", 4));
    assert_eq!(truncate("éééé", 4), "éééé");
    assert_eq!(truncate("ééééé", 4), "é...");
    assert_eq!(truncate("ééééé", 4).chars().count(), 4);
    assert!(!can_truncate("abcd", 2));
    assert!(can_truncate("ab", 2));
}

#[test]
fn mask_secret_keeps_last_four_bytes() {
    assert_eq!(mask_secret("abcd"), "****");
    assert_eq!(mask_secret(""), "****");
    assert_eq!(mask_secret("my-secret-key"), "****-key");
    assert!(can_mask("my-secret-key"));
    assert!(!can_mask("éabc"));
    assert!(can_mask("xxxxxé"));
    assert_eq!(mask_secret("xxxxxé"), "****xxé");
}

#[test]
fn format_duration_units() {
    assert_eq!(format_duration(0), "0s");
    assert_eq!(format_duration(59), "59s");
    assert_eq!(format_duration(60), "1m 0s");
    assert_eq!(format_duration(3599), "59m 59s");
    assert_eq!(format_duration(3600), "1h 0m");
    assert_eq!(format_duration(86399), "23h 59m");
    assert_eq!(format_duration(86400), "1d 0h");
    assert_eq!(format_duration(90061), "1d 1h");
    assert_eq!(format_duration(-5), "-5s");
}

#[test]
fn build_query_string_skips_missing_values() {
    assert_eq!(build_query_string(&[]), "");
    assert_eq!(build_query_string(&[("status", None), ("tag", None)]), "");
    assert_eq!(
        build_query_string(&[("status", Some("active".to_string())), ("tag", None)]),
        "?status=active"
    );
    assert_eq!(
        build_query_string(&[
            ("status", Some("draft".to_string())),
            ("tag", None),
            ("limit", Some("10".to_string()))
        ]),
        "?status=draft&limit=10"
    );
}

#[test]
fn confirmation_answers() {
    assert!(is_confirmed("y"));
    assert!(is_confirmed("Y\n"));
    assert!(is_confirmed("  y  "));
    assert!(!is_confirmed("yes"));
    assert!(!is_confirmed(""));
    assert!(!is_confirmed("n"));
    assert!(!is_confirmed("yy"));
}

fn plain_or_escaped(out: &str, text: &str, code: &str) -> bool {
    out == text || out == format!("\u{1b}[{code}m{text}\u{1b}[0m")
}

#[test]
fn colorize_status_tones() {
    colored::control::set_override(true);
    assert!(plain_or_escaped(&colorize_status("active"), "active", "32"));
    assert!(plain_or_escaped(&colorize_status("pending"), "pending", "33"));
    assert!(plain_or_escaped(&colorize_status("draft"), "draft", "34"));
    assert!(plain_or_escaped(&colorize_status("failed"), "failed", "31"));
    assert!(plain_or_escaped(&colorize_status("archived"), "archived", "2"));
    assert_eq!(colorize_status("other"), "other");
    assert!(plain_or_escaped(&colorize_job_status("running"), "running", "34"));
    assert_eq!(colorize_job_status("queued"), "queued");
    assert!(plain_or_escaped(&paint_opt("x", Some(Tone::GreenBold)), "x", "1;32"));
}

#[test]
fn decimal_rendering() {
    assert_eq!(u64_to_string(0), "0");
    assert_eq!(u64_to_string(18446744073709551615), "18446744073709551615");
    assert_eq!(i64_to_string(-9223372036854775808), "-9223372036854775808");
    assert_eq!(i64_to_string(42), "42");
    assert!(str_eq("abc", "abc"));
    assert!(!str_eq("abc", "abd"));
}

#[test]
fn paint_resumes_tone_after_inner_reset() {
    colored::control::set_override(true);
    let out = paint_opt("a\u{1b}[0mb", Some(Tone::Red));
    assert!(out == "a\u{1b}[0mb" || out == "\u{1b}[31ma\u{1b}[0m\u{1b}[31mb\u{1b}[0m");
    colored::control::set_override(false);
    assert_eq!(paint_opt("a\u{1b}[0mb", Some(Tone::Red)), "a\u{1b}[0mb");
}

#[test]
fn absent_params_leave_query_unchanged() {
    let base = build_query_string(&[("a", Some("1".to_string())), ("b", Some("2".to_string()))]);
    let padded = build_query_string(&[
        ("x", None),
        ("a", Some("1".to_string())),
        ("y", None),
        ("b", Some("2".to_string())),
        ("z", None),
    ]);
    assert_eq!(base, "?a=1&b=2");
    assert_eq!(padded, base);
    assert_eq!(build_query_string(&[]), "");
    assert_eq!(build_query_string(&[("x", None), ("y", None)]), "");
}

#[test]
fn masks_depend_only_on_last_four() {
    assert_eq!(mask_secret("abcdef1234"), mask_secret("zz1234"));
    assert_eq!(mask_secret("abcdef1234"), "****1234");
    assert_eq!(mask_secret("ab"), mask_secret("wxyz"));
    assert_eq!(mask_secret("ab"), "****");
}
