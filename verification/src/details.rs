//! The detail views of single resources (`get` of workflows, rules,
//! channels, connectors, traces and jobs) as documents.
use vstd::prelude::*;
use serde_json::Value;
use crate::json::{
    as_array, as_str, as_str_spec, field, field_opt, field_or_null, get_field, is_null,
    json_content, millis_of, millis_text, parse_json, pretty_of, pretty_text, serde_json_parse,
    to_compact, JsonValue,
};
use crate::strings::str_eq;
use crate::text::{choose_job_status_tone, job_status_tone};
use crate::strings::push_str;
use crate::text::Tone;
use crate::view::{
    bool_text, compact_at, int_or_zero, label_bool, label_int, label_int_suffix, label_json, label_str, plain,
    error_section, json_section, opt_line, push_error_section, push_json_section, push_opt_line,
    status_line, str_at, str_or,
    tone_span, toned, Doc, SpanView,
};
use crate::json::str_field_or;
use crate::strings::int_decimal;

verus! {

/// The text shown for a stored JSON definition: its pretty form when the
/// stored string (or `default` when there is none) parses, otherwise the
/// compact text of the stored value.
pub open spec fn parsed_or_raw(c: JsonValue, key: Seq<char>, default: Seq<char>) -> Seq<char> {
    match serde_json_parse(str_or(c, key, default)) {
        Ok(d) => pretty_of(d),
        Err(_) => compact_at(c, key),
    }
}

/// The condition and task sections shown with `--verbose`.
pub open spec fn definition_lines(c: JsonValue, verbose: bool) -> Seq<Seq<SpanView>> {
    if verbose {
        seq![
            plain(Seq::empty()),
            toned("Condition:"@, Tone::Bold),
            plain(parsed_or_raw(c, "condition_json"@, "true"@)),
            plain(Seq::empty()),
            toned("Tasks:"@, Tone::Bold),
            plain(parsed_or_raw(c, "tasks_json"@, "[]"@)),
        ]
    } else {
        Seq::empty()
    }
}

fn parsed_or_raw_text(v: &Value, key: &str, default: &str) -> (s: String)
    ensures
        s@ == parsed_or_raw(json_content(*v), key@, default@),
{
    let text = str_field_or(v, key, default);
    match parse_json(text) {
        Ok(d) => pretty_text(&d),
        Err(_) => to_compact(field(v, key)),
    }
}

fn push_definitions(d: &mut Doc, v: &Value, verbose: bool)
    ensures
        final(d).view_lines() == old(d).view_lines() + definition_lines(json_content(*v), verbose),
{
    let ghost before = d.view_lines();
    if verbose {
        d.blank();
        d.toned("Condition:", Tone::Bold);
        d.plain(parsed_or_raw_text(v, "condition_json", "true"));
        d.blank();
        d.toned("Tasks:", Tone::Bold);
        d.plain(parsed_or_raw_text(v, "tasks_json", "[]"));
    }
    assert(d.view_lines() =~= before + definition_lines(json_content(*v), verbose));
}

/// The lines of `workflows get` for a response.
pub open spec fn workflow_details_spec(resp: JsonValue, verbose: bool) -> Seq<Seq<SpanView>> {
    let wf = field_or_null(resp, "data"@);
    seq![
        toned("Workflow Details"@, Tone::Bold),
        plain("  ID:          "@ + str_or(wf, "workflow_id"@, ""@)),
        plain("  Name:        "@ + str_or(wf, "name"@, ""@)),
        plain("  Description: "@ + str_or(wf, "description"@, "(none)"@)),
        status_line("  Status:      "@, str_or(wf, "status"@, ""@)),
        plain("  Priority:    "@ + int_decimal(int_or_zero(wf, "priority"@))),
        plain("  Rollout:     "@ + int_decimal(int_or_zero(wf, "rollout_percentage"@)) + "%"@),
        plain("  Version:     "@ + int_decimal(int_or_zero(wf, "version"@))),
        plain("  Tags:        "@ + compact_at(wf, "tags"@)),
        plain("  Continue on error: "@ + bool_text(bool_or(wf))),
        plain("  Created:     "@ + compact_at(wf, "created_at"@)),
        plain("  Updated:     "@ + compact_at(wf, "updated_at"@)),
    ] + definition_lines(wf, verbose)
}

/// The `continue_on_error` flag of a definition.
pub open spec fn bool_or(c: JsonValue) -> bool {
    crate::view::bool_or_false(c, "continue_on_error"@)
}

/// The detail view of a workflow (`workflows get`).
pub fn workflow_details(resp: &Value, verbose: bool) -> (d: Doc)
    ensures
        d.view_lines() == workflow_details_spec(json_content(*resp), verbose),
{
    let wf = field(resp, "data");
    let mut d = Doc::new();
    d.toned("Workflow Details", Tone::Bold);
    d.plain(label_str("  ID:          ", wf, "workflow_id", ""));
    d.plain(label_str("  Name:        ", wf, "name", ""));
    d.plain(label_str("  Description: ", wf, "description", "(none)"));
    d.status("  Status:      ", str_field_or(wf, "status", ""));
    d.plain(label_int("  Priority:    ", wf, "priority"));
    d.plain(label_int_suffix("  Rollout:     ", wf, "rollout_percentage", "%"));
    d.plain(label_int("  Version:     ", wf, "version"));
    d.plain(label_json("  Tags:        ", wf, "tags"));
    d.plain(label_bool("  Continue on error: ", wf, "continue_on_error"));
    d.plain(label_json("  Created:     ", wf, "created_at"));
    d.plain(label_json("  Updated:     ", wf, "updated_at"));
    let ghost head = d.view_lines();
    push_definitions(&mut d, wf, verbose);
    assert(head =~~= seq![
        toned("Workflow Details"@, Tone::Bold),
        plain("  ID:          "@ + str_or(json_content(*wf), "workflow_id"@, ""@)),
        plain("  Name:        "@ + str_or(json_content(*wf), "name"@, ""@)),
        plain("  Description: "@ + str_or(json_content(*wf), "description"@, "(none)"@)),
        status_line("  Status:      "@, str_or(json_content(*wf), "status"@, ""@)),
        plain("  Priority:    "@ + int_decimal(int_or_zero(json_content(*wf), "priority"@))),
        plain("  Rollout:     "@ + int_decimal(int_or_zero(json_content(*wf), "rollout_percentage"@)) + "%"@),
        plain("  Version:     "@ + int_decimal(int_or_zero(json_content(*wf), "version"@))),
        plain("  Tags:        "@ + compact_at(json_content(*wf), "tags"@)),
        plain("  Continue on error: "@ + bool_text(bool_or(json_content(*wf)))),
        plain("  Created:     "@ + compact_at(json_content(*wf), "created_at"@)),
        plain("  Updated:     "@ + compact_at(json_content(*wf), "updated_at"@)),
    ]);
    d
}

/// The lines of `rules get` for a response.
pub open spec fn rule_details_spec(resp: JsonValue, verbose: bool) -> Seq<Seq<SpanView>> {
    let rule = field_or_null(resp, "data"@);
    seq![
        toned("Rule Details"@, Tone::Bold),
        plain("  ID:          "@ + str_or(rule, "id"@, ""@)),
        plain("  Name:        "@ + str_or(rule, "name"@, ""@)),
        plain("  Description: "@ + str_or(rule, "description"@, "(none)"@)),
        plain("  Channel:     "@ + str_or(rule, "channel"@, ""@)),
        status_line("  Status:      "@, str_or(rule, "status"@, ""@)),
        plain("  Priority:    "@ + int_decimal(int_or_zero(rule, "priority"@))),
        plain("  Version:     "@ + int_decimal(int_or_zero(rule, "version"@)) + " ("@
            + int_decimal(int_or_zero(resp, "version_count"@)) + " total)"@),
        plain("  Tags:        "@ + compact_at(rule, "tags"@)),
        plain("  Continue on error: "@ + bool_text(bool_or(rule))),
        plain("  Created:     "@ + compact_at(rule, "created_at"@)),
        plain("  Updated:     "@ + compact_at(rule, "updated_at"@)),
    ] + definition_lines(rule, verbose)
}

/// The detail view of a rule (`rules get`).
pub fn rule_details(resp: &Value, verbose: bool) -> (d: Doc)
    ensures
        d.view_lines() == rule_details_spec(json_content(*resp), verbose),
{
    let rule = field(resp, "data");
    let mut d = Doc::new();
    d.toned("Rule Details", Tone::Bold);
    d.plain(label_str("  ID:          ", rule, "id", ""));
    d.plain(label_str("  Name:        ", rule, "name", ""));
    d.plain(label_str("  Description: ", rule, "description", "(none)"));
    d.plain(label_str("  Channel:     ", rule, "channel", ""));
    d.status("  Status:      ", str_field_or(rule, "status", ""));
    d.plain(label_int("  Priority:    ", rule, "priority"));
    let mut version = label_int_suffix("  Version:     ", rule, "version", " (");
    let total = label_int_suffix("", resp, "version_count", " total)");
    push_str(&mut version, total.as_str());
    d.plain(version);
    d.plain(label_json("  Tags:        ", rule, "tags"));
    d.plain(label_bool("  Continue on error: ", rule, "continue_on_error"));
    d.plain(label_json("  Created:     ", rule, "created_at"));
    d.plain(label_json("  Updated:     ", rule, "updated_at"));
    let ghost head = d.view_lines();
    push_definitions(&mut d, rule, verbose);
    proof {
        reveal_strlit("");
        let r = json_content(*rule);
        let c = json_content(*resp);
        assert(head =~~= seq![
            toned("Rule Details"@, Tone::Bold),
            plain("  ID:          "@ + str_or(r, "id"@, ""@)),
            plain("  Name:        "@ + str_or(r, "name"@, ""@)),
            plain("  Description: "@ + str_or(r, "description"@, "(none)"@)),
            plain("  Channel:     "@ + str_or(r, "channel"@, ""@)),
            status_line("  Status:      "@, str_or(r, "status"@, ""@)),
            plain("  Priority:    "@ + int_decimal(int_or_zero(r, "priority"@))),
            plain("  Version:     "@ + int_decimal(int_or_zero(r, "version"@)) + " ("@
                + int_decimal(int_or_zero(c, "version_count"@)) + " total)"@),
            plain("  Tags:        "@ + compact_at(r, "tags"@)),
            plain("  Continue on error: "@ + bool_text(bool_or(r))),
            plain("  Created:     "@ + compact_at(r, "created_at"@)),
            plain("  Updated:     "@ + compact_at(r, "updated_at"@)),
        ]);
    }
    d
}

/// The string elements of a list, in order.
pub open spec fn strings_of(items: Seq<JsonValue>) -> Seq<Seq<char>>
    decreases items.len(),
{
    if items.len() == 0 {
        Seq::empty()
    } else {
        let prev = strings_of(items.drop_last());
        match as_str_spec(items.last()) {
            Some(s) => prev.push(s),
            None => prev,
        }
    }
}

/// Texts joined by ", ".
pub open spec fn join_comma(parts: Seq<Seq<char>>) -> Seq<char>
    decreases parts.len(),
{
    if parts.len() == 0 {
        Seq::empty()
    } else if parts.len() == 1 {
        parts[0]
    } else {
        join_comma(parts.drop_last()) + ", "@ + parts.last()
    }
}

/// The methods line of a channel: the string methods joined by ", ",
/// when `methods` is an array holding at least one string.
pub open spec fn methods_line(ch: JsonValue) -> Seq<Seq<SpanView>> {
    match field_or_null(ch, "methods"@) {
        JsonValue::Array(items) => if strings_of(items).len() > 0 {
            seq![plain("  Methods:      "@ + join_comma(strings_of(items)))]
        } else {
            Seq::empty()
        },
        _ => Seq::empty(),
    }
}

fn push_methods(d: &mut Doc, ch: &Value)
    ensures
        final(d).view_lines() == old(d).view_lines() + methods_line(json_content(*ch)),
{
    let ghost before = d.view_lines();
    match as_array(field(ch, "methods")) {
        Some(items) => {
            let ghost s = match field_or_null(json_content(*ch), "methods"@) {
                JsonValue::Array(s) => s,
                _ => Seq::empty(),
            };
            let mut joined = String::new();
            let mut count: usize = 0;
            let mut i: usize = 0;
            while i < items.len()
                invariant
                    i <= items.len(),
                    items@.len() == s.len(),
                    forall|j: int| 0 <= j < s.len() ==> json_content(#[trigger] items@[j]) == s[j],
                    count == strings_of(s.take(i as int)).len(),
                    joined@ == join_comma(strings_of(s.take(i as int))),
                    count <= i,
                decreases items.len() - i,
            {
                assert(s.take(i + 1).drop_last() =~= s.take(i as int));
                assert(s.take(i + 1).last() == json_content(items@[i as int]));
                match as_str(&items[i]) {
                    Some(m) => {
                        if count > 0 {
                            push_str(&mut joined, ", ");
                        }
                        push_str(&mut joined, m);
                        count = count + 1;
                        proof {
                            let prev = strings_of(s.take(i as int));
                            assert(prev.push(m@).drop_last() =~= prev);
                            if prev.len() == 0 {
                                assert(joined@ =~= join_comma(prev.push(m@)));
                            }
                        }
                    },
                    None => {},
                }
                i = i + 1;
            }
            assert(s.take(s.len() as int) =~= s);
            if count > 0 {
                let mut t = String::from_str("  Methods:      ");
                push_str(&mut t, joined.as_str());
                d.plain(t);
            }
        },
        None => {},
    }
    assert(d.view_lines() =~= before + methods_line(json_content(*ch)));
}

/// The config section of a channel: shown when `config` is present and not
/// null.
pub open spec fn channel_config_lines(ch: JsonValue) -> Seq<Seq<SpanView>> {
    match field_opt(ch, "config"@) {
        Some(c) => if c is Null {
            Seq::empty()
        } else {
            json_section("Config:"@, c)
        },
        None => Seq::empty(),
    }
}

/// The lines of `channels get` for a response.
pub open spec fn channel_details_spec(resp: JsonValue) -> Seq<Seq<SpanView>> {
    let ch = field_or_null(resp, "data"@);
    seq![
        toned("Channel Details"@, Tone::Bold),
        plain("  ID:           "@ + str_or(ch, "channel_id"@, ""@)),
        plain("  Name:         "@ + str_or(ch, "name"@, ""@)),
        plain("  Description:  "@ + str_or(ch, "description"@, "(none)"@)),
        plain("  Type:         "@ + str_or(ch, "channel_type"@, ""@)),
        plain("  Protocol:     "@ + str_or(ch, "protocol"@, ""@)),
        plain("  Workflow:     "@ + str_or(ch, "workflow_id"@, "(none)"@)),
        status_line("  Status:       "@, str_or(ch, "status"@, ""@)),
        plain("  Version:      "@ + int_decimal(int_or_zero(ch, "version"@))),
        plain("  Priority:     "@ + int_decimal(int_or_zero(ch, "priority"@))),
    ] + methods_line(ch) + opt_line(ch, "  Route:        "@, "route_pattern"@, true) + opt_line(
        ch,
        "  Topic:        "@,
        "topic"@,
        true,
    ) + seq![
        plain("  Created:      "@ + compact_at(ch, "created_at"@)),
        plain("  Updated:      "@ + compact_at(ch, "updated_at"@)),
    ] + channel_config_lines(ch)
}

/// The detail view of a channel (`channels get`).
pub fn channel_details(resp: &Value) -> (d: Doc)
    ensures
        d.view_lines() == channel_details_spec(json_content(*resp)),
{
    let ch = field(resp, "data");
    let ghost c = json_content(*ch);
    let mut d = Doc::new();
    d.toned("Channel Details", Tone::Bold);
    d.plain(label_str("  ID:           ", ch, "channel_id", ""));
    d.plain(label_str("  Name:         ", ch, "name", ""));
    d.plain(label_str("  Description:  ", ch, "description", "(none)"));
    d.plain(label_str("  Type:         ", ch, "channel_type", ""));
    d.plain(label_str("  Protocol:     ", ch, "protocol", ""));
    d.plain(label_str("  Workflow:     ", ch, "workflow_id", "(none)"));
    d.status("  Status:       ", str_field_or(ch, "status", ""));
    d.plain(label_int("  Version:      ", ch, "version"));
    d.plain(label_int("  Priority:     ", ch, "priority"));
    let ghost head = d.view_lines();
    proof {
        reveal_strlit("");
        assert(head =~~= seq![
            toned("Channel Details"@, Tone::Bold),
            plain("  ID:           "@ + str_or(c, "channel_id"@, ""@)),
            plain("  Name:         "@ + str_or(c, "name"@, ""@)),
            plain("  Description:  "@ + str_or(c, "description"@, "(none)"@)),
            plain("  Type:         "@ + str_or(c, "channel_type"@, ""@)),
            plain("  Protocol:     "@ + str_or(c, "protocol"@, ""@)),
            plain("  Workflow:     "@ + str_or(c, "workflow_id"@, "(none)"@)),
            status_line("  Status:       "@, str_or(c, "status"@, ""@)),
            plain("  Version:      "@ + int_decimal(int_or_zero(c, "version"@))),
            plain("  Priority:     "@ + int_decimal(int_or_zero(c, "priority"@))),
        ]);
    }
    push_methods(&mut d, ch);
    push_opt_line(&mut d, ch, "  Route:        ", "route_pattern", true);
    push_opt_line(&mut d, ch, "  Topic:        ", "topic", true);
    let ghost mid = d.view_lines();
    d.plain(label_json("  Created:      ", ch, "created_at"));
    d.plain(label_json("  Updated:      ", ch, "updated_at"));
    assert(d.view_lines() =~~= mid + seq![
        plain("  Created:      "@ + compact_at(c, "created_at"@)),
        plain("  Updated:      "@ + compact_at(c, "updated_at"@)),
    ]);
    let ghost tail = d.view_lines();
    match get_field(ch, "config") {
        Some(cfg) => {
            if !is_null(cfg) {
                push_json_section(&mut d, "Config:", cfg);
            }
        },
        None => {},
    }
    assert(d.view_lines() =~= tail + channel_config_lines(c));
    d
}

/// The enabled flag as shown: "yes" in green or "no" in red.
pub open spec fn enabled_span(b: bool) -> SpanView {
    if b {
        ("yes"@, Some(Tone::Green))
    } else {
        ("no"@, Some(Tone::Red))
    }
}

/// The config section of a connector: its stored `config_json` text,
/// pretty, when it is a string that parses.
pub open spec fn connector_config_lines(conn: JsonValue) -> Seq<Seq<SpanView>> {
    match str_at(conn, "config_json"@) {
        Some(t) => match serde_json_parse(t) {
            Ok(c) => json_section("Config:"@, c),
            Err(_) => Seq::empty(),
        },
        None => Seq::empty(),
    }
}

/// The lines of `connectors get` for a response.
pub open spec fn connector_details_spec(resp: JsonValue) -> Seq<Seq<SpanView>> {
    let conn = field_or_null(resp, "data"@);
    seq![
        toned("Connector Details"@, Tone::Bold),
        plain("  ID:      "@ + str_or(conn, "id"@, ""@)),
        plain("  Name:    "@ + str_or(conn, "name"@, ""@)),
        plain("  Type:    "@ + str_or(conn, "connector_type"@, ""@)),
        seq![("  Enabled: "@, None::<Tone>), enabled_span(crate::view::bool_or_false(conn, "enabled"@))],
        plain("  Created: "@ + compact_at(conn, "created_at"@)),
        plain("  Updated: "@ + compact_at(conn, "updated_at"@)),
    ] + connector_config_lines(conn)
}

/// The detail view of a connector (`connectors get`).
pub fn connector_details(resp: &Value) -> (d: Doc)
    ensures
        d.view_lines() == connector_details_spec(json_content(*resp)),
{
    let conn = field(resp, "data");
    let ghost c = json_content(*conn);
    let mut d = Doc::new();
    d.toned("Connector Details", Tone::Bold);
    d.plain(label_str("  ID:      ", conn, "id", ""));
    d.plain(label_str("  Name:    ", conn, "name", ""));
    d.plain(label_str("  Type:    ", conn, "connector_type", ""));
    let enabled = match crate::json::as_bool(field(conn, "enabled")) {
        Some(b) => b,
        None => false,
    };
    let flag = if enabled {
        tone_span("yes", Tone::Green)
    } else {
        tone_span("no", Tone::Red)
    };
    d.pair(tone_label("  Enabled: "), flag);
    d.plain(label_json("  Created: ", conn, "created_at"));
    d.plain(label_json("  Updated: ", conn, "updated_at"));
    let ghost head = d.view_lines();
    proof {
        reveal_strlit("");
        assert(head =~~= seq![
            toned("Connector Details"@, Tone::Bold),
            plain("  ID:      "@ + str_or(c, "id"@, ""@)),
            plain("  Name:    "@ + str_or(c, "name"@, ""@)),
            plain("  Type:    "@ + str_or(c, "connector_type"@, ""@)),
            seq![("  Enabled: "@, None::<Tone>), enabled_span(crate::view::bool_or_false(c, "enabled"@))],
            plain("  Created: "@ + compact_at(c, "created_at"@)),
            plain("  Updated: "@ + compact_at(c, "updated_at"@)),
        ]);
    }
    match as_str(field(conn, "config_json")) {
        Some(t) => match parse_json(t) {
            Ok(cfg) => push_json_section(&mut d, "Config:", &cfg),
            Err(_) => {},
        },
        None => {},
    }
    assert(d.view_lines() =~= head + connector_config_lines(c));
    d
}

fn tone_label(text: &str) -> (s: crate::view::Span)
    ensures
        s.text@ == text@,
        s.tone is None,
{
    crate::view::span(text.to_owned())
}

/// The result section of a completed trace: its `message`, or else its
/// stored `result_json` text when that parses.
pub open spec fn trace_result_lines(resp: JsonValue) -> Seq<Seq<SpanView>> {
    match field_opt(resp, "message"@) {
        Some(m) => json_section("Result:"@, m),
        None => match str_at(resp, "result_json"@) {
            Some(t) => match serde_json_parse(t) {
                Ok(p) => json_section("Result:"@, p),
                Err(_) => Seq::empty(),
            },
            None => Seq::empty(),
        },
    }
}

/// The error section of a failed trace: `error_message`, else `error`.
pub open spec fn trace_error_lines(resp: JsonValue) -> Seq<Seq<SpanView>> {
    match str_at(resp, "error_message"@) {
        Some(e) => error_section(e),
        None => match str_at(resp, "error"@) {
            Some(e) => error_section(e),
            None => Seq::empty(),
        },
    }
}

/// The per-task trace section: the `task_trace_json` value when it is not
/// null, read from its text when it is a string (and shown only when that
/// text parses).
pub open spec fn task_trace_lines(resp: JsonValue) -> Seq<Seq<SpanView>> {
    match field_opt(resp, "task_trace_json"@) {
        Some(t) => if t is Null {
            Seq::empty()
        } else {
            match as_str_spec(t) {
                Some(text) => match serde_json_parse(text) {
                    Ok(p) => json_section("Task trace:"@, p),
                    Err(_) => Seq::empty(),
                },
                None => json_section("Task trace:"@, t),
            }
        },
        None => Seq::empty(),
    }
}

/// The duration line of a trace, when `duration_ms` is a number.
pub open spec fn duration_line(resp: JsonValue) -> Seq<Seq<SpanView>> {
    match millis_text(field_or_null(resp, "duration_ms"@)) {
        Some(t) => seq![plain("  Duration:  "@ + t)],
        None => Seq::empty(),
    }
}

/// A trace's status (`"unknown"` when it has none).
pub open spec fn status_or_unknown(resp: JsonValue) -> Seq<char> {
    str_or(resp, "status"@, "unknown"@)
}

/// The lines of `traces get` for a response.
pub open spec fn trace_details_spec(resp: JsonValue) -> Seq<Seq<SpanView>> {
    let st = status_or_unknown(resp);
    seq![toned("Trace Details"@, Tone::Bold), plain("  ID:        "@ + str_or(resp, "id"@, ""@))]
        + opt_line(resp, "  Channel:   "@, "channel"@, false) + seq![
        plain("  Mode:      "@ + str_or(resp, "mode"@, ""@)),
        status_line("  Status:    "@, st),
        plain("  Created:   "@ + compact_at(resp, "created_at"@)),
    ] + opt_line(resp, "  Started:   "@, "started_at"@, false) + opt_line(
        resp,
        "  Completed: "@,
        "completed_at"@,
        false,
    ) + duration_line(resp) + (if st == "completed"@ {
        trace_result_lines(resp)
    } else {
        Seq::empty()
    }) + (if st == "failed"@ {
        trace_error_lines(resp)
    } else {
        Seq::empty()
    }) + task_trace_lines(resp)
}

fn push_trace_result(d: &mut Doc, resp: &Value)
    ensures
        final(d).view_lines() == old(d).view_lines() + trace_result_lines(json_content(*resp)),
{
    let ghost before = d.view_lines();
    match get_field(resp, "message") {
        Some(m) => push_json_section(d, "Result:", m),
        None => match as_str(field(resp, "result_json")) {
            Some(t) => match parse_json(t) {
                Ok(p) => push_json_section(d, "Result:", &p),
                Err(_) => {},
            },
            None => {},
        },
    }
    assert(d.view_lines() =~= before + trace_result_lines(json_content(*resp)));
}

fn push_trace_error(d: &mut Doc, resp: &Value)
    ensures
        final(d).view_lines() == old(d).view_lines() + trace_error_lines(json_content(*resp)),
{
    let ghost before = d.view_lines();
    match as_str(field(resp, "error_message")) {
        Some(e) => push_error_section(d, e),
        None => match as_str(field(resp, "error")) {
            Some(e) => push_error_section(d, e),
            None => {},
        },
    }
    assert(d.view_lines() =~= before + trace_error_lines(json_content(*resp)));
}

fn push_task_trace(d: &mut Doc, resp: &Value)
    ensures
        final(d).view_lines() == old(d).view_lines() + task_trace_lines(json_content(*resp)),
{
    let ghost before = d.view_lines();
    match get_field(resp, "task_trace_json") {
        Some(t) => {
            if !is_null(t) {
                match as_str(t) {
                    Some(text) => match parse_json(text) {
                        Ok(p) => push_json_section(d, "Task trace:", &p),
                        Err(_) => {},
                    },
                    None => push_json_section(d, "Task trace:", t),
                }
            }
        },
        None => {},
    }
    assert(d.view_lines() =~= before + task_trace_lines(json_content(*resp)));
}

/// The detail view of a trace (`traces get`).
pub fn trace_details(resp: &Value) -> (d: Doc)
    ensures
        d.view_lines() == trace_details_spec(json_content(*resp)),
{
    let ghost c = json_content(*resp);
    let status = str_field_or(resp, "status", "unknown");
    let mut d = Doc::new();
    d.toned("Trace Details", Tone::Bold);
    d.plain(label_str("  ID:        ", resp, "id", ""));
    proof {
        reveal_strlit("");
        assert(d.view_lines() =~~= seq![
            toned("Trace Details"@, Tone::Bold),
            plain("  ID:        "@ + str_or(c, "id"@, ""@)),
        ]);
    }
    push_opt_line(&mut d, resp, "  Channel:   ", "channel", false);
    let ghost a = d.view_lines();
    d.plain(label_str("  Mode:      ", resp, "mode", ""));
    d.status("  Status:    ", status);
    d.plain(label_json("  Created:   ", resp, "created_at"));
    proof {
        reveal_strlit("");
        assert(d.view_lines() =~~= a + seq![
            plain("  Mode:      "@ + str_or(c, "mode"@, ""@)),
            status_line("  Status:    "@, status_or_unknown(c)),
            plain("  Created:   "@ + compact_at(c, "created_at"@)),
        ]);
    }
    push_opt_line(&mut d, resp, "  Started:   ", "started_at", false);
    push_opt_line(&mut d, resp, "  Completed: ", "completed_at", false);
    let ghost b = d.view_lines();
    match millis_of(field(resp, "duration_ms")) {
        Some(t) => {
            let mut line = String::from_str("  Duration:  ");
            push_str(&mut line, t.as_str());
            d.plain(line);
        },
        None => {},
    }
    assert(d.view_lines() =~= b + duration_line(c));
    let ghost e = d.view_lines();
    if str_eq(status, "completed") {
        push_trace_result(&mut d, resp);
    }
    assert(d.view_lines() =~= e + (if status_or_unknown(c) == "completed"@ {
        trace_result_lines(c)
    } else {
        Seq::empty()
    }));
    let ghost f = d.view_lines();
    if str_eq(status, "failed") {
        push_trace_error(&mut d, resp);
    }
    assert(d.view_lines() =~= f + (if status_or_unknown(c) == "failed"@ {
        trace_error_lines(c)
    } else {
        Seq::empty()
    }));
    push_task_trace(&mut d, resp);
    d
}

/// The lines of `jobs get` for a response.
pub open spec fn job_details_spec(resp: JsonValue) -> Seq<Seq<SpanView>> {
    let st = status_or_unknown(resp);
    seq![
        toned("Job Details"@, Tone::Bold),
        plain("  ID:        "@ + str_or(resp, "id"@, ""@)),
        seq![("  Status:    "@, None::<Tone>), (st, job_status_tone(st))],
        plain("  Created:   "@ + compact_at(resp, "created_at"@)),
    ] + opt_line(resp, "  Started:   "@, "started_at"@, false) + opt_line(
        resp,
        "  Completed: "@,
        "completed_at"@,
        false,
    ) + (if st == "completed"@ {
        match field_opt(resp, "result"@) {
            Some(r) => json_section("Result:"@, r),
            None => Seq::empty(),
        }
    } else {
        Seq::empty()
    }) + (if st == "failed"@ {
        match str_at(resp, "error"@) {
            Some(e) => error_section(e),
            None => Seq::empty(),
        }
    } else {
        Seq::empty()
    })
}

/// The detail view of an asynchronous job (`jobs get`).
pub fn job_details(resp: &Value) -> (d: Doc)
    ensures
        d.view_lines() == job_details_spec(json_content(*resp)),
{
    let ghost c = json_content(*resp);
    let status = str_field_or(resp, "status", "unknown");
    let mut d = Doc::new();
    d.toned("Job Details", Tone::Bold);
    d.plain(label_str("  ID:        ", resp, "id", ""));
    let st = crate::view::Span { text: status.to_owned(), tone: choose_job_status_tone(status) };
    d.pair(tone_label("  Status:    "), st);
    d.plain(label_json("  Created:   ", resp, "created_at"));
    proof {
        reveal_strlit("");
        assert(d.view_lines() =~~= seq![
            toned("Job Details"@, Tone::Bold),
            plain("  ID:        "@ + str_or(c, "id"@, ""@)),
            seq![("  Status:    "@, None::<Tone>), (status_or_unknown(c), job_status_tone(status_or_unknown(c)))],
            plain("  Created:   "@ + compact_at(c, "created_at"@)),
        ]);
    }
    push_opt_line(&mut d, resp, "  Started:   ", "started_at", false);
    push_opt_line(&mut d, resp, "  Completed: ", "completed_at", false);
    let ghost e = d.view_lines();
    if str_eq(status, "completed") {
        match get_field(resp, "result") {
            Some(r) => push_json_section(&mut d, "Result:", r),
            None => {},
        }
    }
    assert(d.view_lines() =~= e + (if status_or_unknown(c) == "completed"@ {
        match field_opt(c, "result"@) {
            Some(r) => json_section("Result:"@, r),
            None => Seq::empty(),
        }
    } else {
        Seq::empty()
    }));
    let ghost f = d.view_lines();
    if str_eq(status, "failed") {
        match as_str(field(resp, "error")) {
            Some(err) => push_error_section(&mut d, err),
            None => {},
        }
    }
    assert(d.view_lines() =~= f + (if status_or_unknown(c) == "failed"@ {
        match str_at(c, "error"@) {
            Some(e) => error_section(e),
            None => Seq::empty(),
        }
    } else {
        Seq::empty()
    }));
    d
}

} // verus!
