//! Waiting for asynchronous work (`jobs wait`, `traces wait`, `send
//! --async-mode --wait`): after each poll the caller hands the response and
//! the elapsed time to a step function, which says whether to poll again or
//! what to print and which exit code to return. Exit codes: 0 completed,
//! 1 failed, 2 timed out.
use vstd::prelude::*;
use serde_json::Value;
use crate::json::{
    as_str, field, field_opt, get_field, json_content, parse_json, pretty_of, pretty_text,
    serde_json_parse, str_field_or, JsonValue,
};
use crate::strings::{nat_decimal, push_str, push_u64, str_eq};
use crate::text::Tone;
use crate::view::{plain, span, str_at, tone_span, Doc, SpanView};
use crate::details::status_or_unknown;

verus! {

/// The exit code for a final status: 1 for "failed", otherwise 0.
pub open spec fn exit_code_for(status: Seq<char>) -> i32 {
    if status == "failed"@ {
        1
    } else {
        0
    }
}

/// The exit code for a status is 1 exactly when the status is "failed";
/// every other status (completed, running, pending, unknown, ...) gives 0.
pub proof fn law_status_exit_code(status: Seq<char>)
    ensures
        exit_code_for(status) == 1 <==> status == "failed"@,
        exit_code_for(status) == 0 <==> status != "failed"@,
        status != "failed"@ ==> exit_code_for(status) == 0,
{
}

/// The exit code of `jobs get`, `traces get` and the wait commands for a
/// status.
pub fn status_exit_code(status: &str) -> (code: i32)
    ensures
        code == exit_code_for(status@),
{
    proof {
        reveal_strlit("completed");
        reveal_strlit("failed");
        assert("completed"@.len() != "failed"@.len());
    }
    if str_eq(status, "completed") {
        0
    } else if str_eq(status, "failed") {
        1
    } else {
        0
    }
}

/// Whether a status is final.
pub open spec fn is_finished(status: Seq<char>) -> bool {
    status == "completed"@ || status == "failed"@
}

/// What a wait command prints when it stops.
pub struct Finish {
    /// Whether the response is printed as a document (JSON or YAML output).
    pub print_value: bool,
    /// The lines printed.
    pub doc: Doc,
    /// The exit code.
    pub code: i32,
}

/// What to do after a poll.
pub enum WaitStep {
    /// Sleep for the interval and poll again.
    Again,
    /// Stop.
    Stop(Finish),
}

/// A line starting with a toned label.
pub open spec fn labelled(label: Seq<char>, tone: Tone, rest: Seq<char>) -> Seq<SpanView> {
    seq![(label, Some(tone)), (rest, None::<Tone>)]
}

/// The lines printed when waiting timed out.
pub open spec fn timeout_lines(timeout_secs: u64, status: Seq<char>) -> Seq<Seq<SpanView>> {
    seq![
        labelled(
            "TIMEOUT"@,
            Tone::YellowBold,
            " Timed out after "@ + nat_decimal(timeout_secs as nat) + "s (status: "@ + status
                + ")"@,
        ),
    ]
}

/// The lines printed when a job finished.
pub open spec fn job_finished_lines(resp: JsonValue) -> Seq<Seq<SpanView>> {
    if status_or_unknown(resp) == "completed"@ {
        seq![labelled("OK"@, Tone::GreenBold, " Job completed"@)] + match field_opt(
            resp,
            "result"@,
        ) {
            Some(r) => seq![plain(pretty_of(r))],
            None => Seq::empty(),
        }
    } else {
        seq![
            labelled(
                "ERR"@,
                Tone::RedBold,
                " Job failed: "@ + match str_at(resp, "error"@) {
                    Some(e) => e,
                    None => "Unknown error"@,
                },
            ),
        ]
    }
}

/// The result text of a completed trace: its `message`, or else its stored
/// `result_json` text when that parses.
pub open spec fn trace_result_text(resp: JsonValue) -> Seq<Seq<SpanView>> {
    match field_opt(resp, "message"@) {
        Some(m) => seq![plain(pretty_of(m))],
        None => match str_at(resp, "result_json"@) {
            Some(t) => match serde_json_parse(t) {
                Ok(p) => seq![plain(pretty_of(p))],
                Err(_) => Seq::empty(),
            },
            None => Seq::empty(),
        },
    }
}

/// The error of a failed trace: `error_message`, else `error`, else
/// "Unknown error".
pub open spec fn trace_error_text(resp: JsonValue) -> Seq<char> {
    match str_at(resp, "error_message"@) {
        Some(e) => e,
        None => match str_at(resp, "error"@) {
            Some(e) => e,
            None => "Unknown error"@,
        },
    }
}

/// The lines printed when a trace finished.
pub open spec fn trace_finished_lines(resp: JsonValue) -> Seq<Seq<SpanView>> {
    if status_or_unknown(resp) == "completed"@ {
        seq![labelled("OK"@, Tone::GreenBold, " Trace completed"@)] + trace_result_text(resp)
    } else {
        seq![labelled("ERR"@, Tone::RedBold, " Trace failed: "@ + trace_error_text(resp))]
    }
}

/// Whether `step` is the right step after a poll of a job or trace
/// (`is_trace`) that returned `resp` after `elapsed` of `timeout` seconds.
pub open spec fn wait_step_spec(
    step: WaitStep,
    resp: JsonValue,
    is_trace: bool,
    structured: bool,
    quiet: bool,
    elapsed_secs: u64,
    timeout_secs: u64,
) -> bool {
    let status = status_or_unknown(resp);
    if is_finished(status) {
        &&& step matches WaitStep::Stop(f)
        &&& f.code == exit_code_for(status)
        &&& f.print_value == structured
        &&& f.doc.view_lines() == if structured || quiet {
            Seq::empty()
        } else if is_trace {
            trace_finished_lines(resp)
        } else {
            job_finished_lines(resp)
        }
    } else if elapsed_secs >= timeout_secs {
        &&& step matches WaitStep::Stop(f)
        &&& f.code == 2
        &&& !f.print_value
        &&& f.doc.view_lines() == if quiet {
            Seq::<Seq<SpanView>>::empty()
        } else {
            timeout_lines(timeout_secs, status)
        }
    } else {
        step is Again
    }
}

fn labelled_line(d: &mut Doc, label: &str, tone: Tone, rest: String)
    ensures
        final(d).view_lines() == old(d).view_lines().push(labelled(label@, tone, rest@)),
{
    d.pair(tone_span(label, tone), span(rest));
}

/// The lines printed when waiting timed out.
pub fn timeout_doc(timeout_secs: u64, status: &str) -> (d: Doc)
    ensures
        d.view_lines() == timeout_lines(timeout_secs, status@),
{
    let mut rest = String::from_str(" Timed out after ");
    push_u64(&mut rest, timeout_secs);
    push_str(&mut rest, "s (status: ");
    push_str(&mut rest, status);
    push_str(&mut rest, ")");
    let mut d = Doc::new();
    labelled_line(&mut d, "TIMEOUT", Tone::YellowBold, rest);
    assert(d.view_lines() =~~= timeout_lines(timeout_secs, status@));
    d
}

/// The lines printed when a job finished.
pub fn job_finished_doc(resp: &Value) -> (d: Doc)
    ensures
        d.view_lines() == job_finished_lines(json_content(*resp)),
{
    let status = str_field_or(resp, "status", "unknown");
    let mut d = Doc::new();
    if str_eq(status, "completed") {
        labelled_line(&mut d, "OK", Tone::GreenBold, String::from_str(" Job completed"));
        let ghost head = d.view_lines();
        match get_field(resp, "result") {
            Some(r) => d.plain(pretty_text(r)),
            None => {},
        }
        assert(d.view_lines() =~~= job_finished_lines(json_content(*resp)));
    } else {
        let mut rest = String::from_str(" Job failed: ");
        match as_str(field(resp, "error")) {
            Some(e) => push_str(&mut rest, e),
            None => push_str(&mut rest, "Unknown error"),
        }
        labelled_line(&mut d, "ERR", Tone::RedBold, rest);
        assert(d.view_lines() =~~= job_finished_lines(json_content(*resp)));
    }
    d
}

/// The lines printed when a trace finished.
pub fn trace_finished_doc(resp: &Value) -> (d: Doc)
    ensures
        d.view_lines() == trace_finished_lines(json_content(*resp)),
{
    let status = str_field_or(resp, "status", "unknown");
    let mut d = Doc::new();
    if str_eq(status, "completed") {
        labelled_line(&mut d, "OK", Tone::GreenBold, String::from_str(" Trace completed"));
        match get_field(resp, "message") {
            Some(m) => d.plain(pretty_text(m)),
            None => match as_str(field(resp, "result_json")) {
                Some(t) => match parse_json(t) {
                    Ok(p) => d.plain(pretty_text(&p)),
                    Err(_) => {},
                },
                None => {},
            },
        }
        assert(d.view_lines() =~~= trace_finished_lines(json_content(*resp)));
    } else {
        let mut rest = String::from_str(" Trace failed: ");
        match as_str(field(resp, "error_message")) {
            Some(e) => push_str(&mut rest, e),
            None => match as_str(field(resp, "error")) {
                Some(e) => push_str(&mut rest, e),
                None => push_str(&mut rest, "Unknown error"),
            },
        }
        labelled_line(&mut d, "ERR", Tone::RedBold, rest);
        assert(d.view_lines() =~~= trace_finished_lines(json_content(*resp)));
    }
    d
}

/// Decides what a wait command does after a poll of a job, or of a trace
/// when `is_trace`, that returned `resp` after `elapsed_secs` of the
/// `timeout_secs` allowed.
pub fn wait_step(
    resp: &Value,
    is_trace: bool,
    structured: bool,
    quiet: bool,
    elapsed_secs: u64,
    timeout_secs: u64,
) -> (step: WaitStep)
    ensures
        wait_step_spec(step, json_content(*resp), is_trace, structured, quiet, elapsed_secs, timeout_secs),
{
    let status = str_field_or(resp, "status", "unknown");
    if str_eq(status, "completed") || str_eq(status, "failed") {
        let doc = if structured || quiet {
            Doc::new()
        } else if is_trace {
            trace_finished_doc(resp)
        } else {
            job_finished_doc(resp)
        };
        WaitStep::Stop(Finish { print_value: structured, doc, code: status_exit_code(status) })
    } else if elapsed_secs >= timeout_secs {
        let doc = if quiet {
            Doc::new()
        } else {
            timeout_doc(timeout_secs, status)
        };
        WaitStep::Stop(Finish { print_value: false, doc, code: 2 })
    } else {
        WaitStep::Again
    }
}

/// The exit code of a step that stops.
pub open spec fn stop_code(step: WaitStep) -> Option<i32> {
    match step {
        WaitStep::Stop(f) => Some(f.code),
        WaitStep::Again => None,
    }
}

/// The three ways a wait ends, by exit code: 0 exactly when the status is
/// "completed", 1 exactly when it is "failed", 2 exactly when the status is
/// not final and the timeout has passed; otherwise the command polls again.
pub proof fn law_wait_exit_codes(
    step: WaitStep,
    resp: JsonValue,
    is_trace: bool,
    structured: bool,
    quiet: bool,
    elapsed_secs: u64,
    timeout_secs: u64,
)
    requires
        wait_step_spec(step, resp, is_trace, structured, quiet, elapsed_secs, timeout_secs),
    ensures
        stop_code(step) == Some(0i32) <==> status_or_unknown(resp) == "completed"@,
        stop_code(step) == Some(1i32) <==> status_or_unknown(resp) == "failed"@,
        stop_code(step) == Some(2i32) <==> (!is_finished(status_or_unknown(resp)) && elapsed_secs
            >= timeout_secs),
        step is Again <==> (!is_finished(status_or_unknown(resp)) && elapsed_secs < timeout_secs),
{
    reveal_strlit("completed");
    reveal_strlit("failed");
    assert("completed"@.len() != "failed"@.len());
}

} // verus!
