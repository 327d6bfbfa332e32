//! `send`: sending a data payload to a channel, synchronously or for
//! asynchronous processing, and what is printed for the response.
use vstd::prelude::*;
use serde_json::Value;
use crate::api::{data_body, data_body_content, is_request, ApiRequest, Method, ResponseKind, send_async_request, send_sync_request};
use crate::json::{
    as_array, as_str, field, field_opt, get_field, json_content, parse_json, pretty_of, pretty_text,
    serde_json_compact, serde_json_parse, str_field_or, to_compact, JsonValue,
};
use crate::strings::{push_str, str_eq};
use crate::text::Tone;
use crate::view::{json_section, plain, push_json_section, span, str_at, str_or, tone_span, Doc, SpanView};
use crate::watch::{labelled, trace_error_text, trace_result_text, Finish, is_finished};
use crate::details::status_or_unknown;

verus! {

/// The documents of an optional metadata text: none when absent, the parsed
/// document when it parses, the parse error otherwise.
pub open spec fn metadata_of(metadata: Option<Seq<char>>) -> Result<Option<JsonValue>, Seq<char>> {
    match metadata {
        None => Ok(None),
        Some(t) => match serde_json_parse(t) {
            Ok(m) => Ok(Some(m)),
            Err(e) => Err(e),
        },
    }
}

/// The path data is sent to.
pub open spec fn send_path(channel: Seq<char>, async_mode: bool) -> Seq<char> {
    if async_mode {
        "/api/v1/data/"@ + channel + "/async"@
    } else {
        "/api/v1/data/"@ + channel
    }
}

/// Builds the request of `send`: the payload under `data`, the metadata
/// text (when given) parsed under `metadata`; a metadata text that does not
/// parse is an error carrying the parser's message.
pub fn send_request(channel: &str, payload: Value, metadata: Option<&str>, async_mode: bool) -> (res: Result<ApiRequest, String>)
    ensures
        match metadata_of(
            match metadata {
                Some(m) => Some(m@),
                None => None,
            },
        ) {
            Ok(meta) => res is Ok && is_request(
                res->Ok_0,
                Method::Post,
                send_path(channel@, async_mode),
                Some(data_body_content(json_content(payload), meta)),
                ResponseKind::Json,
            ),
            Err(e) => res is Err && res->Err_0@ == e,
        },
{
    let meta = match metadata {
        Some(m) => match parse_json(m) {
            Ok(v) => Some(v),
            Err(e) => {
                return Err(e);
            },
        },
        None => None,
    };
    let body = data_body(payload, meta);
    if async_mode {
        Ok(send_async_request(channel, body))
    } else {
        Ok(send_sync_request(channel, body))
    }
}

/// The exit code of a synchronous send: 0 when the response status is
/// "ok", 1 otherwise.
pub open spec fn sync_code(resp: JsonValue) -> i32 {
    if status_or_unknown(resp) == "ok"@ {
        0
    } else {
        1
    }
}

/// The warning lines for the `errors` array of a response.
pub open spec fn warning_lines(errors: Seq<JsonValue>) -> Seq<Seq<SpanView>>
    decreases errors.len(),
{
    if errors.len() == 0 {
        Seq::empty()
    } else {
        warning_lines(errors.drop_last()).push(
            seq![
                ("  "@, None::<Tone>),
                ("WARN"@, Some(Tone::Yellow)),
                (" "@ + serde_json_compact(errors.last()), None::<Tone>),
            ],
        )
    }
}

/// The errors of a response, when `errors` is an array.
pub open spec fn errors_of(resp: JsonValue) -> Seq<JsonValue> {
    match field_opt(resp, "errors"@) {
        Some(JsonValue::Array(s)) => s,
        _ => Seq::empty(),
    }
}

/// The lines a synchronous send prints in table format.
pub open spec fn sync_lines(resp: JsonValue, channel: Seq<char>, verbose: bool) -> Seq<Seq<SpanView>> {
    let ok = status_or_unknown(resp) == "ok"@;
    seq![
        seq![
            (if ok {
                "OK"@
            } else {
                "ERROR"@
            }, Some(if ok {
                Tone::GreenBold
            } else {
                Tone::RedBold
            })),
            (" Processed on channel '"@ + channel + "' ("@ + str_or(resp, "id"@, ""@) + ")"@, None::<Tone>),
        ],
    ] + (if verbose {
        match field_opt(resp, "data"@) {
            Some(d) => json_section("Output:"@, d),
            None => Seq::empty(),
        }
    } else {
        Seq::empty()
    }) + warning_lines(errors_of(resp))
}

/// What a synchronous send prints and returns for a response.
pub open spec fn sync_outcome_spec(f: Finish, resp: JsonValue, channel: Seq<char>, structured: bool, quiet: bool, verbose: bool) -> bool {
    &&& f.code == sync_code(resp)
    &&& f.print_value == (!quiet && structured)
    &&& f.doc.view_lines() == if quiet {
        seq![plain(str_or(resp, "id"@, ""@))]
    } else if structured {
        Seq::empty()
    } else {
        sync_lines(resp, channel, verbose)
    }
}

fn push_warnings(d: &mut Doc, resp: &Value)
    ensures
        final(d).view_lines() == old(d).view_lines() + warning_lines(errors_of(json_content(*resp))),
{
    let ghost before = d.view_lines();
    let ghost es = errors_of(json_content(*resp));
    match get_field(resp, "errors") {
        Some(e) => match as_array(e) {
            Some(items) => {
                let mut i: usize = 0;
                while i < items.len()
                    invariant
                        i <= items.len(),
                        items@.len() == es.len(),
                        forall|j: int| 0 <= j < es.len() ==> json_content(#[trigger] items@[j]) == es[j],
                        d.view_lines() == before + warning_lines(es.take(i as int)),
                    decreases items.len() - i,
                {
                    let ghost prev = d.view_lines();
                    let mut rest = String::from_str(" ");
                    push_str(&mut rest, to_compact(&items[i]).as_str());
                    let spans = vec![span(String::from_str("  ")), tone_span("WARN", Tone::Yellow), span(rest)];
                    d.push_line(spans);
                    proof {
                        reveal_strlit("  ");
                        reveal_strlit(" ");
                        assert(es.take(i + 1).drop_last() =~= es.take(i as int));
                        assert(es.take(i + 1).last() == json_content(items@[i as int]));
                        assert(crate::view::line_view(spans@) =~~= seq![
                            ("  "@, None::<Tone>),
                            ("WARN"@, Some(Tone::Yellow)),
                            (" "@ + serde_json_compact(json_content(items@[i as int])), None::<Tone>),
                        ]);
                        assert(d.view_lines() =~= before + warning_lines(es.take(i + 1)));
                    }
                    i = i + 1;
                }
                assert(es.take(es.len() as int) =~= es);
            },
            None => {
                assert(d.view_lines() =~= before + warning_lines(es));
            },
        },
        None => {
            assert(d.view_lines() =~= before + warning_lines(es));
        },
    }
}

/// What a synchronous send prints and returns for the server's response.
pub fn sync_outcome(resp: &Value, channel: &str, structured: bool, quiet: bool, verbose: bool) -> (f: Finish)
    ensures
        sync_outcome_spec(f, json_content(*resp), channel@, structured, quiet, verbose),
{
    let ghost c = json_content(*resp);
    let status = str_field_or(resp, "status", "unknown");
    let ok = str_eq(status, "ok");
    let code: i32 = if ok {
        0
    } else {
        1
    };
    let id = str_field_or(resp, "id", "");
    let mut d = Doc::new();
    if quiet {
        d.plain(id.to_owned());
        return Finish { print_value: false, doc: d, code };
    }
    if structured {
        return Finish { print_value: true, doc: d, code };
    }
    let mut rest = String::from_str(" Processed on channel '");
    push_str(&mut rest, channel);
    push_str(&mut rest, "' (");
    push_str(&mut rest, id);
    push_str(&mut rest, ")");
    let label = if ok {
        tone_span("OK", Tone::GreenBold)
    } else {
        tone_span("ERROR", Tone::RedBold)
    };
    d.pair(label, span(rest));
    let ghost head = d.view_lines();
    if verbose {
        match get_field(resp, "data") {
            Some(data) => push_json_section(&mut d, "Output:", data),
            None => {},
        }
    }
    let ghost mid = d.view_lines();
    push_warnings(&mut d, resp);
    proof {
        reveal_strlit("");
        assert(head =~~= seq![
            seq![
                (if ok { "OK"@ } else { "ERROR"@ }, Some(if ok { Tone::GreenBold } else { Tone::RedBold })),
                (" Processed on channel '"@ + channel@ + "' ("@ + str_or(c, "id"@, ""@) + ")"@, None::<Tone>),
            ],
        ]);
        assert(d.view_lines() =~~= sync_lines(c, channel@, verbose));
    }
    Finish { print_value: false, doc: d, code }
}

/// The lines printed right after an asynchronous submission. Without
/// `--wait`, or when the server gave no trace id (trace storage is off for
/// the channel, so there is nothing to wait for), the submission is
/// reported.
pub open spec fn submitted_lines(resp: JsonValue, quiet: bool, wait: bool) -> Seq<Seq<SpanView>> {
    let id = str_or(resp, "trace_id"@, ""@);
    if quiet {
        seq![plain(id)]
    } else if !wait || str_at(resp, "trace_id"@) is None {
        seq![seq![("OK"@, Some(Tone::GreenBold)), (" Trace submitted: "@, None::<Tone>), (id, Some(Tone::Cyan))]]
    } else {
        Seq::empty()
    }
}

/// What is printed right after an asynchronous submission.
pub fn submitted_doc(resp: &Value, quiet: bool, wait: bool) -> (d: Doc)
    ensures
        d.view_lines() == submitted_lines(json_content(*resp), quiet, wait),
{
    let id = str_field_or(resp, "trace_id", "");
    let has_id = as_str(field(resp, "trace_id")).is_some();
    let mut d = Doc::new();
    if quiet {
        d.plain(id.to_owned());
    } else if !wait || !has_id {
        let spans = vec![
            tone_span("OK", Tone::GreenBold),
            span(String::from_str(" Trace submitted: ")),
            tone_span(id, Tone::Cyan),
        ];
        d.push_line(spans);
        assert(crate::view::line_view(spans@) =~~= seq![("OK"@, Some(Tone::GreenBold)), (" Trace submitted: "@, None::<Tone>), (id@, Some(Tone::Cyan))]);
    }
    proof {
        reveal_strlit("");
        assert(d.view_lines() =~~= submitted_lines(json_content(*resp), quiet, wait));
    }
    d
}

/// The trace to poll after an asynchronous submission: with `--wait`, the
/// trace id the server returned, when it returned one as a string; nothing
/// otherwise (no wait, or a null trace id), and polling is skipped.
pub fn poll_target(resp: &Value, wait: bool) -> (t: Option<String>)
    ensures
        match t {
            Some(id) => wait && str_at(json_content(*resp), "trace_id"@) == Some(id@),
            None => !wait || str_at(json_content(*resp), "trace_id"@) is None,
        },
{
    if !wait {
        return None;
    }
    match as_str(field(resp, "trace_id")) {
        Some(id) => Some(id.to_owned()),
        None => None,
    }
}

/// Whether polling a submitted trace stops: its status is final or the
/// timeout has passed.
pub fn poll_finished(resp: &Value, elapsed_secs: u64, timeout_secs: u64) -> (done: bool)
    ensures
        done == (is_finished(str_or(json_content(*resp), "status"@, ""@)) || elapsed_secs >= timeout_secs),
{
    let status = str_field_or(resp, "status", "");
    str_eq(status, "completed") || str_eq(status, "failed") || elapsed_secs >= timeout_secs
}

/// The exit code after waiting for a submitted trace. With JSON or YAML
/// output (`structured`): 0 completed, 1 anything else. Otherwise: 0
/// completed, 1 failed, 2 anything else (the wait timed out).
pub open spec fn async_code(status: Seq<char>, structured: bool) -> i32 {
    if status == "completed"@ {
        0
    } else if structured {
        1
    } else if status == "failed"@ {
        1
    } else {
        2
    }
}

/// The lines printed after waiting for a submitted trace.
pub open spec fn async_lines(resp: JsonValue) -> Seq<Seq<SpanView>> {
    let st = status_or_unknown(resp);
    if st == "completed"@ {
        seq![labelled("OK"@, Tone::GreenBold, " Trace completed"@)] + trace_result_text(resp)
    } else if st == "failed"@ {
        seq![labelled("ERR"@, Tone::RedBold, " Trace failed: "@ + trace_error_text(resp))]
    } else {
        seq![labelled("TIMEOUT"@, Tone::YellowBold, " Timed out (status: "@ + st + ")"@)]
    }
}

/// What `send --async-mode --wait` prints and returns for the last poll.
pub fn async_wait_outcome(result: &Value, structured: bool, quiet: bool) -> (f: Finish)
    ensures
        f.code == async_code(status_or_unknown(json_content(*result)), structured),
        f.print_value == structured,
        f.doc.view_lines() == if structured || quiet {
            Seq::<Seq<SpanView>>::empty()
        } else {
            async_lines(json_content(*result))
        },
{
    let status = str_field_or(result, "status", "unknown");
    let code: i32 = if str_eq(status, "completed") {
        0
    } else if structured {
        1
    } else if str_eq(status, "failed") {
        1
    } else {
        2
    };
    if structured || quiet {
        return Finish { print_value: structured, doc: Doc::new(), code };
    }
    let doc = if str_eq(status, "completed") || str_eq(status, "failed") {
        crate::watch::trace_finished_doc(result)
    } else {
        let mut rest = String::from_str(" Timed out (status: ");
        push_str(&mut rest, status);
        push_str(&mut rest, ")");
        let mut d = Doc::new();
        d.pair(tone_span("TIMEOUT", Tone::YellowBold), span(rest));
        assert(d.view_lines() =~~= async_lines(json_content(*result)));
        d
    };
    Finish { print_value: false, doc, code }
}

/// The exit code after `send --async-mode --wait`: 0 exactly when the trace
/// completed; with JSON or YAML output every other outcome gives 1; with
/// table output a failed trace gives 1 and a wait that timed out (any other
/// status) gives 2.
pub proof fn law_async_exit_codes(status: Seq<char>, structured: bool)
    ensures
        async_code(status, structured) == 0 <==> status == "completed"@,
        structured ==> (async_code(status, structured) == 1 <==> status != "completed"@),
        !structured ==> (async_code(status, structured) == 1 <==> status == "failed"@),
        !structured ==> (async_code(status, structured) == 2 <==> (status != "completed"@
            && status != "failed"@)),
{
    reveal_strlit("completed");
    reveal_strlit("failed");
    assert("completed"@.len() != "failed"@.len());
}

/// A synchronous send exits with 0 exactly when the response's `status` is
/// the string "ok"; any other status, or none, gives 1.
pub proof fn law_sync_exit_code(resp: JsonValue)
    ensures
        sync_code(resp) == 0 <==> field_opt(resp, "status"@) == Some(JsonValue::Str("ok"@)),
        sync_code(resp) == 1 <==> field_opt(resp, "status"@) != Some(JsonValue::Str("ok"@)),
{
    reveal_strlit("ok");
    reveal_strlit("unknown");
    assert("ok"@.len() != "unknown"@.len());
}

} // verus!
