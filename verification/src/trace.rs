//! The execution trace that a rule or workflow test returns, as the text
//! lines shown under "Execution Trace:". A trace with a `steps` array shows
//! each step as "Step n" followed by its fields, nested steps indented one
//! level deeper; any other object shows each of its fields in pretty form.
use vstd::prelude::*;
use serde_json::Value;
use crate::json::{
    as_array, as_str, field_opt, get_field, json_content, object_entries, pretty_of, pretty_text,
    serde_json_compact, serde_json_key_order, to_compact, JsonValue,
};
use crate::strings::{nat_decimal, push_str, push_u64, str_eq};

verus! {

/// The text of a list of strings.
pub open spec fn lines_of(v: Seq<String>) -> Seq<Seq<char>> {
    v.map_values(|s: String| s@)
}

/// The indentation for a nesting level: two spaces per level.
pub open spec fn indent_prefix(level: nat) -> Seq<char>
    decreases level,
{
    if level == 0 {
        Seq::empty()
    } else {
        indent_prefix((level - 1) as nat) + "  "@
    }
}

/// The elements of the `steps` array of a trace, when it has one.
pub open spec fn trace_steps(c: JsonValue) -> Option<Seq<JsonValue>> {
    match field_opt(c, "steps"@) {
        Some(JsonValue::Array(s)) => Some(s),
        _ => None,
    }
}

/// How many steps a trace has (0 without a `steps` array).
pub open spec fn step_count(c: JsonValue) -> int {
    match trace_steps(c) {
        Some(s) => s.len() as int,
        None => 0,
    }
}

/// How many fields step `i` of a trace has (0 when it is not an object).
pub open spec fn step_field_count(c: JsonValue, i: nat) -> int {
    match trace_steps(c) {
        Some(s) => if i < s.len() && s[i as int] is Object {
            serde_json_key_order(s[i as int]).len() as int
        } else {
            0
        },
        None => 0,
    }
}

/// A field value of a step: a string as it is, anything else compact.
pub open spec fn step_value_text(v: JsonValue) -> Seq<char> {
    match v {
        JsonValue::Str(s) => s,
        _ => serde_json_compact(v),
    }
}

/// The entries of an object hold its keys, in the order the object yields
/// them, each with the key's value.
pub open spec fn entry_keys_match(es: Seq<(&String, &Value)>, c: JsonValue) -> bool {
    &&& c matches JsonValue::Object(m)
    &&& es.len() == serde_json_key_order(c).len()
    &&& forall|i: int|
        0 <= i < es.len() ==> (#[trigger] es[i]).0@ == serde_json_key_order(c)[i] && m.dom().contains(
            es[i].0@,
        ) && m[es[i].0@] == json_content(*es[i].1)
}

/// The lines of a trace whose lines start with `prefix`.
pub open spec fn trace_text(c: JsonValue, prefix: Seq<char>) -> Seq<Seq<char>>
    decreases c, 2int, 0int,
{
    match trace_steps(c) {
        Some(_) => steps_text(c, prefix, 0),
        None => match c {
            JsonValue::Object(m) => {
                let keys = serde_json_key_order(c);
                Seq::new(keys.len(), |k: int| prefix + keys[k] + ": "@ + pretty_of(m[keys[k]]))
            },
            _ => Seq::empty(),
        },
    }
}

/// The lines of the steps of a trace from step `i` on.
pub open spec fn steps_text(c: JsonValue, prefix: Seq<char>, i: nat) -> Seq<Seq<char>>
    decreases c, 1int, step_count(c) - i,
{
    if i < step_count(c) {
        seq![prefix + "Step "@ + nat_decimal(i + 1)] + step_fields_text(c, prefix, i, 0)
            + steps_text(c, prefix, i + 1)
    } else {
        Seq::empty()
    }
}

/// The lines of the fields of step `i` of a trace from field `k` on, in the
/// order the object yields its keys; a `steps` field shows the step's own
/// trace one level deeper.
pub open spec fn step_fields_text(c: JsonValue, prefix: Seq<char>, i: nat, k: nat) -> Seq<
    Seq<char>,
>
    decreases c, 0int, step_field_count(c, i) - k,
{
    if k < step_field_count(c, i) {
        let step = trace_steps(c)->0[i as int];
        let key = serde_json_key_order(step)[k as int];
        let shown = if key == "steps"@ {
            trace_text(step, prefix + "  "@)
        } else {
            seq![prefix + "  "@ + key + ": "@ + step_value_text(step->Object_0[key])]
        };
        shown + step_fields_text(c, prefix, i, k + 1)
    } else {
        Seq::empty()
    }
}

/// The lines of a trace shown at nesting level `indent`.
pub fn trace_lines(trace: &Value, indent: usize) -> (lines: Vec<String>)
    ensures
        lines_of(lines@) == trace_text(json_content(*trace), indent_prefix(indent as nat)),
{
    let mut prefix = String::new();
    let mut level: usize = 0;
    while level < indent
        invariant
            level <= indent,
            prefix@ == indent_prefix(level as nat),
        decreases indent - level,
    {
        push_str(&mut prefix, "  ");
        level = level + 1;
        proof {
            reveal_strlit("  ");
        }
    }
    let mut out: Vec<String> = Vec::new();
    push_trace_lines(trace, prefix.as_str(), &mut out);
    assert(lines_of(out@) =~= lines_of(Seq::<String>::empty()) + trace_text(
        json_content(*trace),
        prefix@,
    ));
    out
}

/// Appends the lines of a trace, each starting with `prefix`, to `out`.
fn push_trace_lines(trace: &Value, prefix: &str, out: &mut Vec<String>)
    ensures
        lines_of(final(out)@) == lines_of(old(out)@) + trace_text(json_content(*trace), prefix@),
    decreases json_content(*trace),
{
    let ghost c = json_content(*trace);
    let ghost start = lines_of(out@);
    proof {
        reveal_strlit("steps");
        reveal_strlit("  ");
        reveal_strlit(": ");
        reveal_strlit("Step ");
    }
    if let Some(sv) = get_field(trace, "steps") {
        if let Some(items) = as_array(sv) {
            assert(trace_steps(c) is Some);
            let mut i: usize = 0;
            while i < items.len()
                invariant
                    c == json_content(*trace),
                    trace_steps(c) is Some,
                    items@.len() == step_count(c),
                    forall|j: int|
                        0 <= j < items@.len() ==> json_content(#[trigger] items@[j]) == trace_steps(
                            c,
                        )->0[j],
                    i <= items@.len(),
                    lines_of(out@) + steps_text(c, prefix@, i as nat) == start + steps_text(
                        c,
                        prefix@,
                        0,
                    ),
                decreases items@.len() - i,
            {
                let step = &items[i];
                let ghost sc = json_content(*step);
                let mut header = String::new();
                push_str(&mut header, prefix);
                push_str(&mut header, "Step ");
                push_u64(&mut header, (i + 1) as u64);
                let ghost before = lines_of(out@);
                out.push(header);
                assert(lines_of(out@) =~= before + seq![
                    prefix@ + "Step "@ + nat_decimal((i + 1) as nat),
                ]);
                let ghost mid = lines_of(out@);
                if let Some(entries) = object_entries(step) {
                    let mut k: usize = 0;
                    while k < entries.len()
                        invariant
                            c == json_content(*trace),
                            trace_steps(c) is Some,
                            i < step_count(c),
                            sc == trace_steps(c)->0[i as int],
                            sc == json_content(*step),
                            sc is Object,
                            entries@.len() == step_field_count(c, i as nat),
                            entry_keys_match(entries@, sc),
                            k <= entries@.len(),
                            lines_of(out@) + step_fields_text(c, prefix@, i as nat, k as nat) == mid
                                + step_fields_text(c, prefix@, i as nat, 0),
                        decreases entries@.len() - k,
                    {
                        let (key, val) = entries[k];
                        let ghost now = lines_of(out@);
                        assert(key@ == serde_json_key_order(sc)[k as int]);
                        assert(sc->Object_0[key@] == json_content(*val));
                        assert(step_fields_text(c, prefix@, i as nat, k as nat) == (if key@ == "steps"@ {
                            trace_text(sc, prefix@ + "  "@)
                        } else {
                            seq![prefix@ + "  "@ + key@ + ": "@ + step_value_text(json_content(*val))]
                        }) + step_fields_text(c, prefix@, i as nat, (k + 1) as nat));
                        if str_eq(key.as_str(), "steps") {
                            let mut inner = String::new();
                            push_str(&mut inner, prefix);
                            push_str(&mut inner, "  ");
                            proof {
                                assert(decreases_to!(c => sc));
                            }
                            push_trace_lines(step, inner.as_str(), out);
                        } else {
                            let mut line = String::new();
                            push_str(&mut line, prefix);
                            push_str(&mut line, "  ");
                            push_str(&mut line, key.as_str());
                            push_str(&mut line, ": ");
                            match as_str(val) {
                                Some(text) => push_str(&mut line, text),
                                None => {
                                    let compact = to_compact(val);
                                    push_str(&mut line, compact.as_str());
                                },
                            }
                            out.push(line);
                        }
                        assert(lines_of(out@) + step_fields_text(c, prefix@, i as nat, (k + 1) as nat)
                            =~= now + step_fields_text(c, prefix@, i as nat, k as nat));
                        k = k + 1;
                    }
                }
                assert(lines_of(out@) + steps_text(c, prefix@, (i + 1) as nat) =~= before
                    + steps_text(c, prefix@, i as nat));
                i = i + 1;
            }
            assert(lines_of(out@) =~= start + steps_text(c, prefix@, 0));
            return;
        }
    }
    assert(trace_steps(c) is None);
    if let Some(entries) = object_entries(trace) {
        let mut k: usize = 0;
        while k < entries.len()
            invariant
                c == json_content(*trace),
                trace_steps(c) is None,
                c is Object,
                entry_keys_match(entries@, c),
                k <= entries@.len(),
                lines_of(out@) == start + trace_text(c, prefix@).take(k as int),
            decreases entries@.len() - k,
        {
            let (key, val) = entries[k];
            assert(key@ == serde_json_key_order(c)[k as int]);
            assert(c->Object_0[key@] == json_content(*val));
            assert(trace_text(c, prefix@)[k as int] == prefix@ + key@ + ": "@ + pretty_of(
                json_content(*val),
            ));
            let mut line = String::new();
            push_str(&mut line, prefix);
            push_str(&mut line, key.as_str());
            push_str(&mut line, ": ");
            let pretty = pretty_text(val);
            push_str(&mut line, pretty.as_str());
            let ghost before = lines_of(out@);
            out.push(line);
            assert(pretty@ == pretty_of(json_content(*val)));
            assert(lines_of(out@) =~= before.push(line@));
            assert(trace_text(c, prefix@).len() == entries@.len());
            assert(trace_text(c, prefix@).take(k + 1) =~= trace_text(c, prefix@).take(k as int).push(
                trace_text(c, prefix@)[k as int],
            ));
            assert(lines_of(out@) =~= start + trace_text(c, prefix@).take(k + 1));
            k = k + 1;
        }
        assert(trace_text(c, prefix@).take(k as int) =~= trace_text(c, prefix@));
    } else {
        assert(lines_of(out@) =~= start + trace_text(c, prefix@));
    }
}

} // verus!
