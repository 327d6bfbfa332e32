//! What the mutating commands print for the server's response: creation,
//! updates, deletions, status and rollout changes, new versions, tests,
//! validations and bulk imports.
use vstd::prelude::*;
use serde_json::Value;
use crate::json::{
    array_at, array_items, as_array, as_bool, as_bool_spec, as_u64, as_u64_spec, contents, field,
    field_opt, field_or_null, get_field, json_content, serde_json_compact, str_field_or, to_compact,
    JsonValue,
};
use crate::strings::{int_decimal, nat_decimal, push_i64, push_str, push_u64};
use crate::table::{choose_rule_status_tone, rule_status_tone};
use crate::text::{choose_status_tone, status_tone, Tone};
use crate::view::{
    int_or_zero, json_section, label_int, plain, push_json_section, span, str_or, tone_span, toned, Doc, Span,
    SpanView,
};
use crate::watch::Finish;

verus! {

/// A line led by a green "OK".
pub open spec fn ok_line(rest: Seq<SpanView>) -> Seq<SpanView> {
    seq![("OK"@, Some(Tone::GreenBold))] + rest
}

/// The name of the resource in a response (`response["data"]["name"]`), or
/// `default`.
pub open spec fn data_name(resp: JsonValue, default: Seq<char>) -> Seq<char> {
    str_or(field_or_null(resp, "data"@), "name"@, default)
}

fn ok_doc(rest: Vec<Span>) -> (d: Doc)
    ensures
        d.view_lines() == seq![ok_line(crate::view::line_view(rest@))],
{
    let mut spans = vec![tone_span("OK", Tone::GreenBold)];
    let ghost first = spans@;
    let mut rest = rest;
    let ghost r = rest@;
    spans.append(&mut rest);
    assert(crate::view::line_view(spans@) =~= ok_line(crate::view::line_view(r)));
    let mut d = Doc::new();
    d.push_line(spans);
    d
}

fn one(text: String) -> (v: Vec<Span>)
    ensures
        crate::view::line_view(v@) == seq![(text@, None::<Tone>)],
{
    let v = vec![span(text)];
    assert(crate::view::line_view(v@) =~= seq![(text@, None::<Tone>)]);
    v
}

/// The lines of `created_doc`.
pub open spec fn created_doc_spec(noun: Seq<char>, resp: JsonValue, id_key: Seq<char>) -> Seq<Seq<SpanView>> {
    seq![
            ok_line(
                seq![
                    (" "@ + noun + " created: "@ + data_name(resp, ""@) + " ("@
                        + str_or(field_or_null(resp, "data"@), id_key, ""@) + ")"@, None::<Tone>),
                ],
            ),
        ]
}

/// "OK <Noun> created: <name> (<id>)", the id read at `id_key`.
pub fn created_doc(noun: &str, resp: &Value, id_key: &str) -> (d: Doc)
    ensures
        d.view_lines() == created_doc_spec(noun@, json_content(*resp), id_key@),
{
    let data = field(resp, "data");
    let mut t = String::from_str(" ");
    push_str(&mut t, noun);
    push_str(&mut t, " created: ");
    push_str(&mut t, str_field_or(data, "name", ""));
    push_str(&mut t, " (");
    push_str(&mut t, str_field_or(data, id_key, ""));
    push_str(&mut t, ")");
    ok_doc(one(t))
}

/// The lines of `updated_doc`.
pub open spec fn updated_doc_spec(noun: Seq<char>, resp: JsonValue) -> Seq<Seq<SpanView>> {
    seq![
            ok_line(
                seq![
                    (" "@ + noun + " updated: "@ + data_name(resp, ""@) + " (v"@
                        + int_decimal(int_or_zero(field_or_null(resp, "data"@), "version"@)) + ")"@, None::<Tone>),
                ],
            ),
        ]
}

/// "OK <Noun> updated: <name> (v<version>)".
pub fn updated_doc(noun: &str, resp: &Value) -> (d: Doc)
    ensures
        d.view_lines() == updated_doc_spec(noun@, json_content(*resp)),
{
    let data = field(resp, "data");
    let mut t = String::from_str(" ");
    push_str(&mut t, noun);
    push_str(&mut t, " updated: ");
    push_str(&mut t, str_field_or(data, "name", ""));
    push_str(&mut t, " (v");
    let v = match crate::json::as_i64(field(data, "version")) {
        Some(n) => n,
        None => 0,
    };
    push_i64(&mut t, v);
    push_str(&mut t, ")");
    ok_doc(one(t))
}

/// The lines of `connector_updated_doc`.
pub open spec fn connector_updated_spec(resp: JsonValue, id: Seq<char>) -> Seq<Seq<SpanView>> {
    seq![ok_line(seq![(" Connector updated: "@ + data_name(resp, id), None::<Tone>)])]
}

/// "OK Connector updated: <name or id>".
pub fn connector_updated_doc(resp: &Value, id: &str) -> (d: Doc)
    ensures
        d.view_lines() == connector_updated_spec(json_content(*resp), id@),
{
    let mut t = String::from_str(" Connector updated: ");
    push_str(&mut t, str_field_or(field(resp, "data"), "name", id));
    ok_doc(one(t))
}

/// "OK <Noun> <id> deleted".
pub fn deleted_doc(noun: &str, id: &str) -> (d: Doc)
    ensures
        d.view_lines() == seq![ok_line(seq![(" "@ + noun@ + " "@ + id@ + " deleted"@, None::<Tone>)])],
{
    let mut t = String::from_str(" ");
    push_str(&mut t, noun);
    push_str(&mut t, " ");
    push_str(&mut t, id);
    push_str(&mut t, " deleted");
    ok_doc(one(t))
}

/// "OK <Noun> <name or id> status changed to <status>", the status in its
/// tone (the rule tones when `rule`).
pub fn status_changed_doc(noun: &str, resp: &Value, id: &str, status: &str, rule: bool) -> (d: Doc)
    ensures
        d.view_lines() == seq![
            ok_line(
                seq![
                    (" "@ + noun@ + " "@ + data_name(json_content(*resp), id@) + " status changed to "@, None::<Tone>),
                    (status@, if rule { rule_status_tone(status@) } else { status_tone(status@) }),
                ],
            ),
        ],
{
    let mut t = String::from_str(" ");
    push_str(&mut t, noun);
    push_str(&mut t, " ");
    push_str(&mut t, str_field_or(field(resp, "data"), "name", id));
    push_str(&mut t, " status changed to ");
    let tone = if rule {
        choose_rule_status_tone(status)
    } else {
        choose_status_tone(status)
    };
    let v = vec![span(t), Span { text: status.to_owned(), tone }];
    assert(crate::view::line_view(v@) =~~= seq![
        (" "@ + noun@ + " "@ + data_name(json_content(*resp), id@) + " status changed to "@, None::<Tone>),
        (status@, if rule { rule_status_tone(status@) } else { status_tone(status@) }),
    ]);
    let d = ok_doc(v);
    assert(d.view_lines() =~~= seq![
        ok_line(
            seq![
                (" "@ + noun@ + " "@ + data_name(json_content(*resp), id@) + " status changed to "@, None::<Tone>),
                (status@, if rule { rule_status_tone(status@) } else { status_tone(status@) }),
            ],
        ),
    ]);
    d
}

/// "OK Workflow <name or id> rollout set to <percentage>%".
pub fn rollout_doc(resp: &Value, id: &str, percentage: i64) -> (d: Doc)
    ensures
        d.view_lines() == seq![
            ok_line(
                seq![
                    (" Workflow "@ + data_name(json_content(*resp), id@) + " rollout set to "@ + int_decimal(
                        percentage as int,
                    ) + "%"@, None::<Tone>),
                ],
            ),
        ],
{
    let mut t = String::from_str(" Workflow ");
    push_str(&mut t, str_field_or(field(resp, "data"), "name", id));
    push_str(&mut t, " rollout set to ");
    push_i64(&mut t, percentage);
    push_str(&mut t, "%");
    ok_doc(one(t))
}

/// The lines of `new_version_doc`.
pub open spec fn new_version_spec(noun: Seq<char>, resp: JsonValue, id: Seq<char>) -> Seq<Seq<SpanView>> {
    seq![
            ok_line(
                seq![
                    (" New draft version "@ + int_decimal(int_or_zero(field_or_null(resp, "data"@), "version"@))
                        + " created for "@ + noun + " "@ + data_name(resp, id), None::<Tone>),
                ],
            ),
        ]
}

/// "OK New draft version <v> created for <noun> <name or id>".
pub fn new_version_doc(noun: &str, resp: &Value, id: &str) -> (d: Doc)
    ensures
        d.view_lines() == new_version_spec(noun@, json_content(*resp), id@),
{
    let data = field(resp, "data");
    let mut t = String::from_str(" New draft version ");
    let v = match crate::json::as_i64(field(data, "version")) {
        Some(n) => n,
        None => 0,
    };
    push_i64(&mut t, v);
    push_str(&mut t, " created for ");
    push_str(&mut t, noun);
    push_str(&mut t, " ");
    push_str(&mut t, str_field_or(data, "name", id));
    ok_doc(one(t))
}

/// "OK Connector <name or id> enabled|disabled".
pub fn toggled_doc(resp: &Value, id: &str, enabled: bool) -> (d: Doc)
    ensures
        d.view_lines() == seq![
            ok_line(
                seq![
                    (" Connector "@ + data_name(json_content(*resp), id@) + " "@, None::<Tone>),
                    if enabled {
                        ("enabled"@, Some(Tone::Green))
                    } else {
                        ("disabled"@, Some(Tone::Red))
                    },
                ],
            ),
        ],
{
    let mut t = String::from_str(" Connector ");
    push_str(&mut t, str_field_or(field(resp, "data"), "name", id));
    push_str(&mut t, " ");
    let state = if enabled {
        tone_span("enabled", Tone::Green)
    } else {
        tone_span("disabled", Tone::Red)
    };
    let v = vec![span(t), state];
    let ghost st = if enabled {
        ("enabled"@, Some(Tone::Green))
    } else {
        ("disabled"@, Some(Tone::Red))
    };
    assert(crate::view::line_view(v@) =~~= seq![
        (" Connector "@ + data_name(json_content(*resp), id@) + " "@, None::<Tone>),
        st,
    ]);
    let d = ok_doc(v);
    assert(d.view_lines() =~~= seq![ok_line(seq![(" Connector "@ + data_name(json_content(*resp), id@) + " "@, None::<Tone>), st])]);
    d
}

/// "OK Circuit breaker '<key>' reset".
pub fn breaker_reset_doc(key: &str) -> (d: Doc)
    ensures
        d.view_lines() == seq![ok_line(seq![(" Circuit breaker '"@ + key@ + "' reset"@, None::<Tone>)])],
{
    let mut t = String::from_str(" Circuit breaker '");
    push_str(&mut t, key);
    push_str(&mut t, "' reset");
    ok_doc(one(t))
}

/// The error lines of a test: a blank line, "Errors:" and one line per
/// error, when the response has a non-empty `errors` array.
pub open spec fn test_error_lines(resp: JsonValue) -> Seq<Seq<SpanView>> {
    match field_opt(resp, "errors"@) {
        Some(JsonValue::Array(es)) => if es.len() == 0 {
            Seq::empty()
        } else {
            seq![plain(Seq::empty()), toned("Errors:"@, Tone::YellowBold)] + dash_lines(es)
        },
        _ => Seq::empty(),
    }
}

/// One "  - <error>" line per error (compact JSON).
pub open spec fn dash_lines(es: Seq<JsonValue>) -> Seq<Seq<SpanView>>
    decreases es.len(),
{
    if es.len() == 0 {
        Seq::empty()
    } else {
        dash_lines(es.drop_last()).push(plain("  - "@ + serde_json_compact(es.last())))
    }
}

/// Whether a test matched.
pub open spec fn matched(resp: JsonValue) -> bool {
    match as_bool_spec(field_or_null(resp, "matched"@)) {
        Some(b) => b,
        None => false,
    }
}

/// The lines of a test result (`label` introduces the tested id,
/// `result_label` the verdict).
pub open spec fn test_lines(resp: JsonValue, label: Seq<char>, result_label: Seq<char>, id: Seq<char>) -> Seq<Seq<SpanView>> {
    seq![
        toned("Test Result"@, Tone::Bold),
        plain(label + id),
        seq![
            (result_label, None::<Tone>),
            if matched(resp) {
                ("MATCHED"@, Some(Tone::GreenBold))
            } else {
                ("NO MATCH"@, Some(Tone::RedBold))
            },
        ],
    ] + (if matched(resp) {
        match field_opt(resp, "output"@) {
            Some(o) => json_section("Output:"@, o),
            None => Seq::empty(),
        }
    } else {
        Seq::empty()
    }) + test_error_lines(resp)
}

fn push_dash_lines(d: &mut Doc, items: &Vec<Value>)
    ensures
        final(d).view_lines() == old(d).view_lines() + dash_lines(contents(items@)),
{
    let ghost before = d.view_lines();
    let ghost s = contents(items@);
    let mut i: usize = 0;
    while i < items.len()
        invariant
            i <= items.len(),
            s == contents(items@),
            d.view_lines() == before + dash_lines(s.take(i as int)),
        decreases items.len() - i,
    {
        proof {
            assert(s.take(i + 1).drop_last() =~= s.take(i as int));
            assert(s.take(i + 1).last() == json_content(items@[i as int]));
        }
        let mut t = String::from_str("  - ");
        push_str(&mut t, to_compact(&items[i]).as_str());
        d.plain(t);
        assert(d.view_lines() =~= before + dash_lines(s.take(i + 1)));
        i = i + 1;
    }
    assert(s.take(s.len() as int) =~= s);
}

/// What a test prints and returns: exit code 0 when it matched, 1 when not.
pub fn test_outcome(resp: &Value, label: &str, result_label: &str, id: &str, structured: bool, quiet: bool) -> (f: Finish)
    ensures
        f.code == (if matched(json_content(*resp)) { 0i32 } else { 1i32 }),
        f.print_value == structured,
        f.doc.view_lines() == if structured {
            Seq::<Seq<SpanView>>::empty()
        } else if quiet {
            seq![plain(if matched(json_content(*resp)) { "matched"@ } else { "no_match"@ })]
        } else {
            test_lines(json_content(*resp), label@, result_label@, id@)
        },
{
    let is_match = match as_bool(field(resp, "matched")) {
        Some(b) => b,
        None => false,
    };
    let code: i32 = if is_match {
        0
    } else {
        1
    };
    let mut d = Doc::new();
    if structured {
        return Finish { print_value: true, doc: d, code };
    }
    if quiet {
        d.plain(String::from_str(if is_match { "matched" } else { "no_match" }));
        return Finish { print_value: false, doc: d, code };
    }
    d.toned("Test Result", Tone::Bold);
    let mut l = label.to_owned();
    push_str(&mut l, id);
    d.plain(l);
    let verdict = if is_match {
        tone_span("MATCHED", Tone::GreenBold)
    } else {
        tone_span("NO MATCH", Tone::RedBold)
    };
    d.pair(span(result_label.to_owned()), verdict);
    let ghost head = d.view_lines();
    if is_match {
        match get_field(resp, "output") {
            Some(o) => push_json_section(&mut d, "Output:", o),
            None => {},
        }
    }
    let ghost mid = d.view_lines();
    match get_field(resp, "errors") {
        Some(e) => match as_array(e) {
            Some(es) => {
                if es.len() > 0 {
                    d.blank();
                    d.toned("Errors:", Tone::YellowBold);
                    let mut items: Vec<Value> = Vec::new();
                    let mut i: usize = 0;
                    while i < es.len()
                        invariant
                            i <= es@.len(),
                            contents(items@) == contents(es@).take(i as int),
                        decreases es.len() - i,
                    {
                        let ghost b = items@;
                        let c = crate::json::clone_value(&es[i]);
                        items.push(c);
                        assert(contents(items@) =~= contents(b).push(json_content(c)));
                        assert(contents(items@) =~= contents(es@).take(i + 1));
                        i = i + 1;
                    }
                    assert(contents(es@).take(es@.len() as int) =~= contents(es@));
                    push_dash_lines(&mut d, &items);
                    proof {
                        let s = match field_opt(json_content(*resp), "errors"@) {
                            Some(JsonValue::Array(s)) => s,
                            _ => Seq::empty(),
                        };
                        assert(contents(es@) =~= s);
                    }
                }
            },
            None => {},
        },
        None => {},
    }
    proof {
        reveal_strlit("");
        let c = json_content(*resp);
        assert(mid =~~= seq![
            toned("Test Result"@, Tone::Bold),
            plain(label@ + id@),
            seq![
                (result_label@, None::<Tone>),
                if matched(c) { ("MATCHED"@, Some(Tone::GreenBold)) } else { ("NO MATCH"@, Some(Tone::RedBold)) },
            ],
        ] + (if matched(c) {
            match field_opt(c, "output"@) {
                Some(o) => json_section("Output:"@, o),
                None => Seq::empty(),
            }
        } else {
            Seq::empty()
        }));
        assert(d.view_lines() =~~= test_lines(c, label@, result_label@, id@));
    }
    Finish { print_value: false, doc: d, code }
}

/// The issue lines of a validation for `key` ("errors" or "warnings"): a
/// blank line, the heading and one "  - <field>: <message>" line per issue,
/// when the list is a non-empty array.
pub open spec fn issue_lines(resp: JsonValue, key: Seq<char>, heading: Seq<char>, tone: Tone) -> Seq<Seq<SpanView>> {
    match field_or_null(resp, key) {
        JsonValue::Array(es) => if es.len() == 0 {
            Seq::empty()
        } else {
            seq![plain(Seq::empty()), toned(heading, tone)] + field_message_lines(es)
        },
        _ => Seq::empty(),
    }
}

/// One "  - <field>: <message>" line per issue.
pub open spec fn field_message_lines(es: Seq<JsonValue>) -> Seq<Seq<SpanView>>
    decreases es.len(),
{
    if es.len() == 0 {
        Seq::empty()
    } else {
        field_message_lines(es.drop_last()).push(
            plain("  - "@ + str_or(es.last(), "field"@, ""@) + ": "@ + str_or(es.last(), "message"@, ""@)),
        )
    }
}

fn push_issues(d: &mut Doc, resp: &Value, key: &str, heading: &str, tone: Tone)
    ensures
        final(d).view_lines() == old(d).view_lines() + issue_lines(json_content(*resp), key@, heading@, tone),
{
    let ghost before = d.view_lines();
    let items = array_items(resp, key);
    let is_array = as_array(field(resp, key)).is_some();
    if is_array && items.len() > 0 {
        d.blank();
        d.toned(heading, tone);
        let ghost head = d.view_lines();
        let ghost s = contents(items@);
        let mut i: usize = 0;
        while i < items.len()
            invariant
                i <= items.len(),
                s == contents(items@),
                d.view_lines() == head + field_message_lines(s.take(i as int)),
            decreases items.len() - i,
        {
            proof {
                assert(s.take(i + 1).drop_last() =~= s.take(i as int));
                assert(s.take(i + 1).last() == json_content(items@[i as int]));
                reveal_strlit("");
            }
            let mut t = String::from_str("  - ");
            push_str(&mut t, str_field_or(&items[i], "field", ""));
            push_str(&mut t, ": ");
            push_str(&mut t, str_field_or(&items[i], "message", ""));
            d.plain(t);
            assert(d.view_lines() =~= head + field_message_lines(s.take(i + 1)));
            i = i + 1;
        }
        assert(s.take(s.len() as int) =~= s);
    }
    assert(d.view_lines() =~= before + issue_lines(json_content(*resp), key@, heading@, tone));
}

/// Whether a validation found the definition valid.
pub open spec fn valid(resp: JsonValue) -> bool {
    match as_bool_spec(field_or_null(resp, "valid"@)) {
        Some(b) => b,
        None => false,
    }
}

/// The lines of a validation result.
pub open spec fn validate_lines(resp: JsonValue) -> Seq<Seq<SpanView>> {
    seq![
        if valid(resp) {
            ok_line(seq![(" Workflow definition is valid"@, None::<Tone>)])
        } else {
            seq![("INVALID"@, Some(Tone::RedBold)), (" Workflow definition has issues"@, None::<Tone>)]
        },
    ] + issue_lines(resp, "errors"@, "Errors:"@, Tone::RedBold) + issue_lines(
        resp,
        "warnings"@,
        "Warnings:"@,
        Tone::YellowBold,
    )
}

/// What `workflows validate` prints and returns: exit code 0 when valid,
/// 1 otherwise.
pub fn validate_outcome(resp: &Value, structured: bool, quiet: bool) -> (f: Finish)
    ensures
        f.code == (if valid(json_content(*resp)) { 0i32 } else { 1i32 }),
        f.print_value == structured,
        f.doc.view_lines() == if structured {
            Seq::<Seq<SpanView>>::empty()
        } else if quiet {
            seq![plain(if valid(json_content(*resp)) { "valid"@ } else { "invalid"@ })]
        } else {
            validate_lines(json_content(*resp))
        },
{
    let ok = match as_bool(field(resp, "valid")) {
        Some(b) => b,
        None => false,
    };
    let code: i32 = if ok {
        0
    } else {
        1
    };
    if structured {
        return Finish { print_value: true, doc: Doc::new(), code };
    }
    if quiet {
        let mut d = Doc::new();
        d.plain(String::from_str(if ok { "valid" } else { "invalid" }));
        return Finish { print_value: false, doc: d, code };
    }
    let mut d = if ok {
        ok_doc(one(String::from_str(" Workflow definition is valid")))
    } else {
        let mut d = Doc::new();
        d.pair(tone_span("INVALID", Tone::RedBold), span(String::from_str(" Workflow definition has issues")));
        d
    };
    let ghost head = d.view_lines();
    push_issues(&mut d, resp, "errors", "Errors:", Tone::RedBold);
    push_issues(&mut d, resp, "warnings", "Warnings:", Tone::YellowBold);
    assert(d.view_lines() =~~= validate_lines(json_content(*resp)));
    Finish { print_value: false, doc: d, code }
}

/// Checks that an import file holds an array; otherwise the message names
/// what it must hold (`plural`: "workflows" or "rules").
pub fn import_check(items: &Value, plural: &str) -> (res: Result<(), String>)
    ensures
        json_content(*items) is Array ==> res is Ok,
        !(json_content(*items) is Array) ==> res is Err && res->Err_0@ == "Import file must contain a JSON array of "@ + plural@,
{
    if as_array(items).is_some() {
        Ok(())
    } else {
        let mut m = String::from_str("Import file must contain a JSON array of ");
        push_str(&mut m, plural);
        Err(m)
    }
}

/// The numbered preview lines of an import dry run; with `with_channel`
/// each line also names the item's channel.
pub open spec fn preview_item_lines(items: Seq<JsonValue>, with_channel: bool) -> Seq<Seq<SpanView>>
    decreases items.len(),
{
    if items.len() == 0 {
        Seq::empty()
    } else {
        let it = items.last();
        preview_item_lines(items.drop_last(), with_channel).push(
            plain("  "@ + nat_decimal(items.len()) + ". "@ + str_or(it, "name"@, "(unnamed)"@) + if with_channel {
                " (channel: "@ + str_or(it, "channel"@, "default"@) + ")"@
            } else {
                Seq::empty()
            }),
        )
    }
}

/// The lines of an import dry run (`noun`: "workflow" or "rule").
pub open spec fn preview_doc_lines(items: Seq<JsonValue>, noun: Seq<char>, file: Seq<char>, with_channel: bool) -> Seq<Seq<SpanView>> {
    seq![
        seq![
            ("DRY RUN"@, Some(Tone::YellowBold)),
            (" Would import "@ + nat_decimal(items.len()) + " "@ + noun + "(s) from "@ + file, None::<Tone>),
        ],
    ] + preview_item_lines(items, with_channel)
}

/// What an import dry run prints for the items of the file.
pub fn import_preview(items: &Vec<Value>, noun: &str, file: &str, with_channel: bool) -> (d: Doc)
    ensures
        d.view_lines() == preview_doc_lines(contents(items@), noun@, file@, with_channel),
{
    let mut t = String::from_str(" Would import ");
    push_u64(&mut t, items.len() as u64);
    push_str(&mut t, " ");
    push_str(&mut t, noun);
    push_str(&mut t, "(s) from ");
    push_str(&mut t, file);
    let mut d = Doc::new();
    d.pair(tone_span("DRY RUN", Tone::YellowBold), span(t));
    let ghost head = d.view_lines();
    let ghost s = contents(items@);
    let mut i: usize = 0;
    while i < items.len()
        invariant
            i <= items.len(),
            s == contents(items@),
            d.view_lines() == head + preview_item_lines(s.take(i as int), with_channel),
        decreases items.len() - i,
    {
        proof {
            assert(s.take(i + 1).drop_last() =~= s.take(i as int));
            assert(s.take(i + 1).last() == json_content(items@[i as int]));
        }
        let it = &items[i];
        let mut line = String::from_str("  ");
        push_u64(&mut line, (i + 1) as u64);
        push_str(&mut line, ". ");
        push_str(&mut line, str_field_or(it, "name", "(unnamed)"));
        if with_channel {
            push_str(&mut line, " (channel: ");
            push_str(&mut line, str_field_or(it, "channel", "default"));
            push_str(&mut line, ")");
        }
        d.plain(line);
        proof {
            reveal_strlit("");
            assert(d.view_lines() =~~= head + preview_item_lines(s.take(i + 1), with_channel));
        }
        i = i + 1;
    }
    assert(s.take(s.len() as int) =~= s);
    assert(d.view_lines() =~~= preview_doc_lines(contents(items@), noun@, file@, with_channel));
    d
}

/// A count read from a response (`as_u64`, 0 when absent).
pub open spec fn count_at(resp: JsonValue, key: Seq<char>) -> nat {
    match as_u64_spec(field_or_null(resp, key)) {
        Some(n) => n as nat,
        None => 0,
    }
}

/// The per-item error lines of an import result.
pub open spec fn import_error_lines(es: Seq<JsonValue>, noun: Seq<char>) -> Seq<Seq<SpanView>>
    decreases es.len(),
{
    if es.len() == 0 {
        Seq::empty()
    } else {
        let e = es.last();
        import_error_lines(es.drop_last(), noun).push(
            seq![
                ("  "@, None::<Tone>),
                ("ERR"@, Some(Tone::Red)),
                (" "@ + noun + " #"@ + nat_decimal(count_at(e, "index"@)) + ": "@ + str_or(e, "error"@, "unknown"@), None::<Tone>),
            ],
        )
    }
}

/// The errors of an import result, when `errors` is an array.
pub open spec fn import_errors(resp: JsonValue) -> Seq<JsonValue> {
    match field_opt(resp, "errors"@) {
        Some(JsonValue::Array(s)) => s,
        _ => Seq::empty(),
    }
}

/// The lines of an import result (`noun`: "Workflow" or "Rule").
pub open spec fn import_result_lines(resp: JsonValue, noun: Seq<char>) -> Seq<Seq<SpanView>> {
    let failed = count_at(resp, "failed"@);
    seq![
        seq![
            if failed == 0 {
                ("OK"@, Some(Tone::GreenBold))
            } else {
                ("PARTIAL"@, Some(Tone::YellowBold))
            },
            (" Imported: "@, None::<Tone>),
            (nat_decimal(count_at(resp, "imported"@)), Some(Tone::Green)),
            (", Failed: "@, None::<Tone>),
            if failed > 0 {
                (nat_decimal(failed), Some(Tone::Red))
            } else {
                ("0"@, None::<Tone>)
            },
        ],
    ] + import_error_lines(import_errors(resp), noun)
}

fn count_of(resp: &Value, key: &str) -> (n: u64)
    ensures
        n as nat == count_at(json_content(*resp), key@),
{
    match as_u64(field(resp, key)) {
        Some(n) => n,
        None => 0,
    }
}

/// What an import prints and returns for the server's result: the count
/// imported when quiet (exit code 0), otherwise a summary and one line per
/// failed item, with exit code 1 when any failed.
pub fn import_result(resp: &Value, noun: &str, quiet: bool) -> (f: Finish)
    ensures
        !f.print_value,
        quiet ==> f.code == 0 && f.doc.view_lines() == seq![plain(nat_decimal(count_at(json_content(*resp), "imported"@)))],
        !quiet ==> f.code == (if count_at(json_content(*resp), "failed"@) > 0 { 1i32 } else { 0i32 })
            && f.doc.view_lines() == import_result_lines(json_content(*resp), noun@),
{
    let imported = count_of(resp, "imported");
    let mut d = Doc::new();
    if quiet {
        d.plain(crate::strings::u64_to_string(imported));
        return Finish { print_value: false, doc: d, code: 0 };
    }
    let failed = count_of(resp, "failed");
    let label = if failed == 0 {
        tone_span("OK", Tone::GreenBold)
    } else {
        tone_span("PARTIAL", Tone::YellowBold)
    };
    let failed_span = if failed > 0 {
        Span { text: crate::strings::u64_to_string(failed), tone: Some(Tone::Red) }
    } else {
        span(String::from_str("0"))
    };
    let spans = vec![
        label,
        span(String::from_str(" Imported: ")),
        Span { text: crate::strings::u64_to_string(imported), tone: Some(Tone::Green) },
        span(String::from_str(", Failed: ")),
        failed_span,
    ];
    d.push_line(spans);
    push_import_errors(&mut d, resp, noun);
    let code: i32 = if failed > 0 {
        1
    } else {
        0
    };
    assert(d.view_lines() =~~= import_result_lines(json_content(*resp), noun@));
    Finish { print_value: false, doc: d, code }
}

/// Appends one line per error of an import result.
fn push_import_errors(d: &mut Doc, resp: &Value, noun: &str)
    ensures
        final(d).view_lines() == old(d).view_lines() + import_error_lines(import_errors(json_content(*resp)), noun@),
{
    let ghost head = d.view_lines();
    let ghost es = import_errors(json_content(*resp));
    match get_field(resp, "errors") {
        Some(e) => match as_array(e) {
            Some(items) => {
                let mut i: usize = 0;
                while i < items.len()
                    invariant
                        i <= items.len(),
                        items@.len() == es.len(),
                        forall|j: int| 0 <= j < es.len() ==> json_content(#[trigger] items@[j]) == es[j],
                        d.view_lines() == head + import_error_lines(es.take(i as int), noun@),
                    decreases items.len() - i,
                {
                    proof {
                        assert(es.take(i + 1).drop_last() =~= es.take(i as int));
                        assert(es.take(i + 1).last() == json_content(items@[i as int]));
                    }
                    let err = &items[i];
                    let mut t = String::from_str(" ");
                    push_str(&mut t, noun);
                    push_str(&mut t, " #");
                    push_u64(&mut t, count_of(err, "index"));
                    push_str(&mut t, ": ");
                    push_str(&mut t, str_field_or(err, "error", "unknown"));
                    let line = vec![span(String::from_str("  ")), tone_span("ERR", Tone::Red), span(t)];
                    d.push_line(line);
                    assert(d.view_lines() =~~= head + import_error_lines(es.take(i + 1), noun@));
                    i = i + 1;
                }
                assert(es.take(es.len() as int) =~= es);
            },
            None => {
                assert(head + import_error_lines(es, noun@) =~~= head);
            },
        },
        None => {
            assert(head + import_error_lines(es, noun@) =~~= head);
        },
    }
}

/// The lines of a server-side dry run of an import: what would be created
/// and what would fail, then one line per item that would fail.
pub open spec fn dry_run_lines(resp: JsonValue, noun: Seq<char>) -> Seq<Seq<SpanView>> {
    let fail = count_at(resp, "would_fail"@);
    seq![
        seq![
            ("DRY RUN"@, Some(Tone::YellowBold)),
            (" Would create: "@, None::<Tone>),
            (nat_decimal(count_at(resp, "would_create"@)), Some(Tone::Green)),
            (", would fail: "@, None::<Tone>),
            if fail > 0 {
                (nat_decimal(fail), Some(Tone::Red))
            } else {
                ("0"@, None::<Tone>)
            },
        ],
    ] + import_error_lines(import_errors(resp), noun)
}

/// What a server-side dry run of an import (`?dry_run=true`) prints: the
/// count that would be created when quiet, otherwise the counts that would
/// be created and would fail and the errors; the exit code is 0 (nothing
/// was imported).
pub fn dry_run_result(resp: &Value, noun: &str, quiet: bool) -> (f: Finish)
    ensures
        !f.print_value,
        f.code == 0,
        quiet ==> f.doc.view_lines() == seq![plain(nat_decimal(count_at(json_content(*resp), "would_create"@)))],
        !quiet ==> f.doc.view_lines() == dry_run_lines(json_content(*resp), noun@),
{
    let create = count_of(resp, "would_create");
    let mut d = Doc::new();
    if quiet {
        d.plain(crate::strings::u64_to_string(create));
        return Finish { print_value: false, doc: d, code: 0 };
    }
    let fail = count_of(resp, "would_fail");
    let fail_span = if fail > 0 {
        Span { text: crate::strings::u64_to_string(fail), tone: Some(Tone::Red) }
    } else {
        span(String::from_str("0"))
    };
    let spans = vec![
        tone_span("DRY RUN", Tone::YellowBold),
        span(String::from_str(" Would create: ")),
        Span { text: crate::strings::u64_to_string(create), tone: Some(Tone::Green) },
        span(String::from_str(", would fail: ")),
        fail_span,
    ];
    d.push_line(spans);
    push_import_errors(&mut d, resp, noun);
    assert(d.view_lines() =~~= dry_run_lines(json_content(*resp), noun@));
    Finish { print_value: false, doc: d, code: 0 }
}

/// Whether `f` is what a command that shows one resource gives: exit code
/// 0; when quiet, the line `quiet_text` alone; otherwise the response
/// itself with structured (JSON or YAML) output, else the lines `lines`.
pub open spec fn shows(f: Finish, lines: Seq<Seq<SpanView>>, quiet_text: Seq<char>, structured: bool, quiet: bool) -> bool {
    &&& f.code == 0
    &&& quiet ==> !f.print_value && f.doc.view_lines() == seq![plain(quiet_text)]
    &&& !quiet ==> f.print_value == structured && f.doc.view_lines() == if structured {
        Seq::<Seq<SpanView>>::empty()
    } else {
        lines
    }
}

/// Chooses what a command that shows one resource prints: `quiet_text`
/// when quiet, the response with structured output, `doc` otherwise.
pub fn shown_outcome(doc: Doc, quiet_text: String, structured: bool, quiet: bool) -> (f: Finish)
    ensures
        shows(f, doc.view_lines(), quiet_text@, structured, quiet),
{
    if quiet {
        let mut d = Doc::new();
        d.plain(quiet_text);
        Finish { print_value: false, doc: d, code: 0 }
    } else if structured {
        Finish { print_value: true, doc: Doc::new(), code: 0 }
    } else {
        Finish { print_value: false, doc, code: 0 }
    }
}

/// What `create` prints: the new resource's id (`data[id_key]`) when quiet,
/// the response with structured output, the confirmation otherwise.
pub fn created_outcome(noun: &str, resp: &Value, id_key: &str, structured: bool, quiet: bool) -> (f: Finish)
    ensures
        shows(
            f,
            created_doc_spec(noun@, json_content(*resp), id_key@),
            str_or(field_or_null(json_content(*resp), "data"@), id_key@, ""@),
            structured,
            quiet,
        ),
{
    proof {
        reveal_strlit("");
    }
    let id = str_field_or(field(resp, "data"), id_key, "").to_owned();
    shown_outcome(created_doc(noun, resp, id_key), id, structured, quiet)
}

/// What `update` prints: the id when quiet, the response with structured
/// output, the confirmation otherwise (connectors have their own).
pub fn updated_outcome(noun: &str, resp: &Value, id: &str, connector: bool, structured: bool, quiet: bool) -> (f: Finish)
    ensures
        shows(
            f,
            if connector {
                connector_updated_spec(json_content(*resp), id@)
            } else {
                updated_doc_spec(noun@, json_content(*resp))
            },
            id@,
            structured,
            quiet,
        ),
{
    let doc = if connector {
        connector_updated_doc(resp, id)
    } else {
        updated_doc(noun, resp)
    };
    shown_outcome(doc, id.to_owned(), structured, quiet)
}

/// What `create-version` prints: the new version number when quiet, the
/// response with structured output, the confirmation otherwise.
pub fn new_version_outcome(noun: &str, resp: &Value, id: &str, structured: bool, quiet: bool) -> (f: Finish)
    ensures
        shows(
            f,
            new_version_spec(noun@, json_content(*resp), id@),
            int_decimal(int_or_zero(field_or_null(json_content(*resp), "data"@), "version"@)),
            structured,
            quiet,
        ),
{
    proof {
        reveal_strlit("");
    }
    let version = label_int("", field(resp, "data"), "version");
    shown_outcome(new_version_doc(noun, resp, id), version, structured, quiet)
}

/// A test matches exactly when the response's `matched` field is the JSON
/// boolean true: then the exit code is 0 and the verdict reads "MATCHED";
/// when it is false, absent or not a boolean, the exit code is 1 and the
/// verdict reads "NO MATCH" (quiet output: "matched" / "no_match").
pub proof fn law_test_verdict(resp: JsonValue, label: Seq<char>, result_label: Seq<char>, id: Seq<char>)
    ensures
        matched(resp) <==> field_opt(resp, "matched"@) == Some(JsonValue::Bool(true)),
        (if matched(resp) { 0i32 } else { 1i32 }) == 0 <==> field_opt(resp, "matched"@) == Some(
            JsonValue::Bool(true),
        ),
        test_lines(resp, label, result_label, id)[2] == seq![
            (result_label, None::<Tone>),
            if field_opt(resp, "matched"@) == Some(JsonValue::Bool(true)) {
                ("MATCHED"@, Some(Tone::GreenBold))
            } else {
                ("NO MATCH"@, Some(Tone::RedBold))
            },
        ],
{
}

/// An import (or its dry run) counts an item only when the response gives
/// a whole number that fits in 64 bits; otherwise the count is 0. So the
/// import reports failures, and exits with 1, exactly when `failed` is such
/// a number above 0.
pub proof fn law_import_counts(resp: JsonValue, key: Seq<char>)
    ensures
        count_at(resp, key) > 0 <==> (field_opt(resp, key) matches Some(JsonValue::Int(n)) && 0 < n
            <= u64::MAX),
        field_opt(resp, key) matches Some(JsonValue::Int(n)) ==> (0 <= n <= u64::MAX ==> count_at(
            resp,
            key,
        ) == n),
{
}

} // verus!
