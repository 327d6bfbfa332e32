//! The server views: health, engine status and reload, circuit breakers,
//! and the Prometheus metrics text.
use vstd::prelude::*;
use serde_json::Value;
use crate::json::{
    as_array, as_str, as_str_spec, as_u64, as_u64_spec, entry_keys, field, field_opt,
    field_or_null, get_field, json_content, object_entries, serde_json_compact,
    serde_json_key_order, str_field_or, to_compact, JsonValue,
};
use crate::strings::{nat_decimal, push_str, push_u64, str_eq, u64_to_string};
use crate::text::{duration_text, format_duration, Tone};
use crate::view::{int_or_zero, plain, span, str_or, tone_span, toned, Doc, Span, SpanView};
use crate::outcomes::{count_at, ok_line};
use crate::details::{join_comma, strings_of};

verus! {

/// `s` padded with spaces to at least `w` characters (`{:<w}`).
pub open spec fn pad_right(s: Seq<char>, w: nat) -> Seq<char> {
    if s.len() < w {
        s + Seq::new((w - s.len()) as nat, |_i: int| ' ')
    } else {
        s
    }
}

fn push_padded(out: &mut String, s: &str, w: usize)
    ensures
        final(out)@ == old(out)@ + pad_right(s@, w as nat),
{
    let ghost before = out@;
    push_str(out, s);
    let n = s.unicode_len();
    if n < w {
        let mut k: usize = n;
        while k < w
            invariant
                n <= k <= w,
                n == s@.len(),
                out@ == before + s@ + Seq::new((k - n) as nat, |_i: int| ' '),
            decreases w - k,
        {
            out.push(' ');
            assert(out@ =~= before + s@ + Seq::new((k + 1 - n) as nat, |_i: int| ' '));
            k = k + 1;
        }
    }
    assert(out@ =~= before + pad_right(s@, w as nat));
}

/// The status a health response reports ("unknown" when none).
pub open spec fn health_status(resp: JsonValue) -> Seq<char> {
    str_or(resp, "status"@, "unknown"@)
}

/// The exit code of `health`: 0 when the server reports "ok".
pub open spec fn health_code(resp: JsonValue) -> i32 {
    if health_status(resp) == "ok"@ {
        0
    } else {
        1
    }
}

/// The line of one component.
pub open spec fn component_line(name: Seq<char>, val: JsonValue) -> Seq<SpanView> {
    seq![
        ("    "@ + pad_right(name, 12) + " "@, None::<Tone>),
        if as_str_spec(val) == Some("ok"@) {
            ("OK"@, Some(Tone::Green))
        } else {
            ("ERROR"@, Some(Tone::Red))
        },
    ]
}

/// The component lines, in the order the object yields its keys.
pub open spec fn component_lines(m: Map<Seq<char>, JsonValue>, keys: Seq<Seq<char>>) -> Seq<Seq<SpanView>>
    decreases keys.len(),
{
    if keys.len() == 0 {
        Seq::empty()
    } else {
        component_lines(m, keys.drop_last()).push(component_line(keys.last(), m[keys.last()]))
    }
}

/// The components section of a health response.
pub open spec fn components_section(resp: JsonValue) -> Seq<Seq<SpanView>> {
    match field_opt(resp, "components"@) {
        Some(JsonValue::Object(m)) => seq![seq![("  "@, None::<Tone>), ("Components:"@, Some(Tone::Bold))]]
            + component_lines(m, serde_json_key_order(JsonValue::Object(m))),
        _ => Seq::empty(),
    }
}

/// The lines of `health` in table format.
pub open spec fn health_lines(resp: JsonValue) -> Seq<Seq<SpanView>> {
    seq![
        seq![
            ("Orion Server"@, Some(Tone::Bold)),
            (" "@, None::<Tone>),
            ("v"@ + str_or(resp, "version"@, "unknown"@), Some(Tone::Dimmed)),
        ],
        seq![
            ("  Status:       "@, None::<Tone>),
            if health_status(resp) == "ok"@ {
                ("OK"@, Some(Tone::GreenBold))
            } else {
                ("DEGRADED"@, Some(Tone::RedBold))
            },
        ],
        plain("  Uptime:       "@ + duration_text(int_or_zero(resp, "uptime_seconds"@))),
        plain("  Rules loaded: "@ + nat_decimal(count_at(resp, "rules_loaded"@))),
    ] + components_section(resp)
}

/// What `health` prints: the status alone when quiet, the document for
/// JSON or YAML, the health lines otherwise; exit code 0 when "ok".
pub fn health_view(resp: &Value, structured: bool, quiet: bool) -> (f: crate::watch::Finish)
    ensures
        f.code == health_code(json_content(*resp)),
        f.print_value == (!quiet && structured),
        f.doc.view_lines() == if quiet {
            seq![plain(health_status(json_content(*resp)))]
        } else if structured {
            Seq::<Seq<SpanView>>::empty()
        } else {
            health_lines(json_content(*resp))
        },
{
    let status = str_field_or(resp, "status", "unknown");
    let code: i32 = if str_eq(status, "ok") {
        0
    } else {
        1
    };
    let mut d = Doc::new();
    if quiet {
        d.plain(status.to_owned());
        return crate::watch::Finish { print_value: false, doc: d, code };
    }
    if structured {
        return crate::watch::Finish { print_value: true, doc: d, code };
    }
    let mut v = String::from_str("v");
    push_str(&mut v, str_field_or(resp, "version", "unknown"));
    let l1 = vec![tone_span("Orion Server", Tone::Bold), span(String::from_str(" ")), Span { text: v, tone: Some(Tone::Dimmed) }];
    d.push_line(l1);
    let verdict = if str_eq(status, "ok") {
        tone_span("OK", Tone::GreenBold)
    } else {
        tone_span("DEGRADED", Tone::RedBold)
    };
    d.pair(span(String::from_str("  Status:       ")), verdict);
    let uptime = match crate::json::as_i64(field(resp, "uptime_seconds")) {
        Some(n) => n,
        None => 0,
    };
    let mut u = String::from_str("  Uptime:       ");
    push_str(&mut u, format_duration(uptime).as_str());
    d.plain(u);
    let rules = match as_u64(field(resp, "rules_loaded")) {
        Some(n) => n,
        None => 0,
    };
    let mut r = String::from_str("  Rules loaded: ");
    push_u64(&mut r, rules);
    d.plain(r);
    let ghost head = d.view_lines();
    assert(head =~~= seq![
        seq![
            ("Orion Server"@, Some(Tone::Bold)),
            (" "@, None::<Tone>),
            ("v"@ + str_or(json_content(*resp), "version"@, "unknown"@), Some(Tone::Dimmed)),
        ],
        seq![
            ("  Status:       "@, None::<Tone>),
            if health_status(json_content(*resp)) == "ok"@ {
                ("OK"@, Some(Tone::GreenBold))
            } else {
                ("DEGRADED"@, Some(Tone::RedBold))
            },
        ],
        plain("  Uptime:       "@ + duration_text(int_or_zero(json_content(*resp), "uptime_seconds"@))),
        plain("  Rules loaded: "@ + nat_decimal(count_at(json_content(*resp), "rules_loaded"@))),
    ]);
    match get_field(resp, "components") {
        Some(comps) => match object_entries(comps) {
            Some(es) => {
                let ghost m = match json_content(*comps) {
                    JsonValue::Object(m) => m,
                    _ => Map::empty(),
                };
                let ghost keys = entry_keys(es@);
                d.pair(span(String::from_str("  ")), tone_span("Components:", Tone::Bold));
                let ghost head2 = d.view_lines();
                let mut i: usize = 0;
                while i < es.len()
                    invariant
                        i <= es@.len(),
                        keys == entry_keys(es@),
                        keys.len() == es@.len(),
                        forall|j: int| 0 <= j < es@.len() ==> m[(#[trigger] es@[j]).0@] == json_content(*es@[j].1),
                        d.view_lines() == head2 + component_lines(m, keys.take(i as int)),
                    decreases es.len() - i,
                {
                    let (name, val) = es[i];
                    proof {
                        assert(keys.take(i + 1).drop_last() =~= keys.take(i as int));
                        assert(keys.take(i + 1).last() == name@);
                        assert(m[name@] == json_content(*val));
                    }
                    let mut t = String::from_str("    ");
                    push_padded(&mut t, name.as_str(), 12);
                    push_str(&mut t, " ");
                    let comp = match as_str(val) {
                        Some(c) => c,
                        None => "unknown",
                    };
                    let ind = if str_eq(comp, "ok") {
                        tone_span("OK", Tone::Green)
                    } else {
                        tone_span("ERROR", Tone::Red)
                    };
                    proof {
                        reveal_strlit("unknown");
                        reveal_strlit("ok");
                        assert("unknown"@.len() != "ok"@.len());
                        assert(comp@ == "ok"@ <==> as_str_spec(json_content(*val)) == Some("ok"@));
                    }
                    d.pair(span(t), ind);
                    assert(d.view_lines() =~~= head2 + component_lines(m, keys.take(i + 1)));
                    i = i + 1;
                }
                assert(keys.take(keys.len() as int) =~= keys);
                assert(d.view_lines() =~~= head + components_section(json_content(*resp)));
            },
            None => {},
        },
        None => {},
    }
    assert(d.view_lines() =~~= health_lines(json_content(*resp)));
    crate::watch::Finish { print_value: false, doc: d, code }
}

/// The channels line of the engine status, when `channels` is an array.
pub open spec fn engine_channels_lines(resp: JsonValue) -> Seq<Seq<SpanView>> {
    match field_opt(resp, "channels"@) {
        Some(JsonValue::Array(items)) => if strings_of(items).len() == 0 {
            seq![seq![("  Channels:     "@, None::<Tone>), ("(none)"@, Some(Tone::Dimmed))]]
        } else {
            seq![plain("  Channels:     "@ + join_comma(strings_of(items)))]
        },
        _ => Seq::empty(),
    }
}

/// The lines of `engine status` in table format.
pub open spec fn engine_lines(resp: JsonValue) -> Seq<Seq<SpanView>> {
    seq![
        toned("Engine Status"@, Tone::Bold),
        plain("  Version:         "@ + str_or(resp, "version"@, "unknown"@)),
        plain("  Uptime:          "@ + duration_text(int_or_zero(resp, "uptime_seconds"@))),
        plain("  Total workflows: "@ + nat_decimal(count_at(resp, "workflows_count"@))),
        seq![("  Active:          "@, None::<Tone>), (nat_decimal(count_at(resp, "active_workflows"@)), Some(Tone::Green))],
    ] + engine_channels_lines(resp)
}

fn joined_strings(items: &Vec<Value>) -> (r: (String, usize))
    ensures
        r.0@ == join_comma(strings_of(contents_of(items@))),
        r.1 == strings_of(contents_of(items@)).len(),
{
    let ghost s = contents_of(items@);
    let mut joined = String::new();
    let mut count: usize = 0;
    let mut i: usize = 0;
    while i < items.len()
        invariant
            i <= items.len(),
            s == contents_of(items@),
            count == strings_of(s.take(i as int)).len(),
            joined@ == join_comma(strings_of(s.take(i as int))),
            count <= i,
        decreases items.len() - i,
    {
        assert(s.take(i + 1).drop_last() =~= s.take(i as int));
        assert(s.take(i + 1).last() == json_content(items@[i as int]));
        match as_str(&items[i]) {
            Some(m) => {
                if count > 0 {
                    push_str(&mut joined, ", ");
                }
                push_str(&mut joined, m);
                count = count + 1;
                proof {
                    let prev = strings_of(s.take(i as int));
                    assert(prev.push(m@).drop_last() =~= prev);
                    if prev.len() == 0 {
                        assert(joined@ =~= join_comma(prev.push(m@)));
                    }
                }
            },
            None => {},
        }
        i = i + 1;
    }
    assert(s.take(s.len() as int) =~= s);
    (joined, count)
}

/// The documents of a list of values.
pub open spec fn contents_of(vs: Seq<Value>) -> Seq<JsonValue> {
    crate::json::contents(vs)
}

/// What `engine status` prints: the workflow count when quiet, the
/// document for JSON or YAML, the status lines otherwise.
pub fn engine_view(resp: &Value, structured: bool, quiet: bool) -> (f: crate::watch::Finish)
    ensures
        f.code == 0,
        f.print_value == (!quiet && structured),
        f.doc.view_lines() == if quiet {
            seq![plain(nat_decimal(count_at(json_content(*resp), "workflows_count"@)))]
        } else if structured {
            Seq::<Seq<SpanView>>::empty()
        } else {
            engine_lines(json_content(*resp))
        },
{
    let wc = match as_u64(field(resp, "workflows_count")) {
        Some(n) => n,
        None => 0,
    };
    let mut d = Doc::new();
    if quiet {
        d.plain(u64_to_string(wc));
        return crate::watch::Finish { print_value: false, doc: d, code: 0 };
    }
    if structured {
        return crate::watch::Finish { print_value: true, doc: d, code: 0 };
    }
    d.toned("Engine Status", Tone::Bold);
    let mut v = String::from_str("  Version:         ");
    push_str(&mut v, str_field_or(resp, "version", "unknown"));
    d.plain(v);
    let uptime = match crate::json::as_i64(field(resp, "uptime_seconds")) {
        Some(n) => n,
        None => 0,
    };
    let mut u = String::from_str("  Uptime:          ");
    push_str(&mut u, format_duration(uptime).as_str());
    d.plain(u);
    let mut t = String::from_str("  Total workflows: ");
    push_u64(&mut t, wc);
    d.plain(t);
    let active = match as_u64(field(resp, "active_workflows")) {
        Some(n) => n,
        None => 0,
    };
    d.pair(span(String::from_str("  Active:          ")), Span { text: u64_to_string(active), tone: Some(Tone::Green) });
    let ghost head = d.view_lines();
    match get_field(resp, "channels") {
        Some(c) => match as_array(c) {
            Some(items) => {
                let (joined, count) = joined_strings(items);
                proof {
                    let s = match json_content(*c) {
                        JsonValue::Array(s) => s,
                        _ => Seq::empty(),
                    };
                    assert(contents_of(items@) =~= s);
                }
                if count == 0 {
                    d.pair(span(String::from_str("  Channels:     ")), tone_span("(none)", Tone::Dimmed));
                } else {
                    let mut line = String::from_str("  Channels:     ");
                    push_str(&mut line, joined.as_str());
                    d.plain(line);
                }
            },
            None => {},
        },
        None => {},
    }
    assert(d.view_lines() =~~= engine_lines(json_content(*resp)));
    crate::watch::Finish { print_value: false, doc: d, code: 0 }
}

/// The line after an engine reload.
pub fn reloaded_doc(resp: &Value) -> (d: Doc)
    ensures
        d.view_lines() == seq![
            ok_line(
                seq![(" Engine reloaded with "@ + nat_decimal(count_at(json_content(*resp), "workflows_count"@)) + " workflow(s)"@, None::<Tone>)],
            ),
        ],
{
    let wc = match as_u64(field(resp, "workflows_count")) {
        Some(n) => n,
        None => 0,
    };
    let mut t = String::from_str(" Engine reloaded with ");
    push_u64(&mut t, wc);
    push_str(&mut t, " workflow(s)");
    let v = vec![tone_span("OK", Tone::GreenBold), span(t)];
    let mut d = Doc::new();
    d.push_line(v);
    assert(d.view_lines() =~~= seq![
        ok_line(
            seq![(" Engine reloaded with "@ + nat_decimal(count_at(json_content(*resp), "workflows_count"@)) + " workflow(s)"@, None::<Tone>)],
        ),
    ]);
    d
}

/// The pieces of a text between newlines (one more than there are
/// newlines).
pub open spec fn split_newlines(s: Seq<char>) -> Seq<Seq<char>>
    decreases s.len(),
{
    if s.len() == 0 {
        seq![Seq::<char>::empty()]
    } else {
        let r = split_newlines(s.drop_last());
        if s.last() == '\n' {
            r.push(Seq::empty())
        } else {
            r.update(r.len() - 1, r.last().push(s.last()))
        }
    }
}

/// A line without the carriage return that ended it.
pub open spec fn strip_cr(l: Seq<char>) -> Seq<char> {
    if l.len() > 0 && l.last() == '\r' {
        l.drop_last()
    } else {
        l
    }
}

/// The lines of a text as `str::lines` yields them: split at each newline
/// (a carriage return before it removed), the piece after the last newline
/// kept only when it is not empty.
pub open spec fn text_lines(s: Seq<char>) -> Seq<Seq<char>> {
    let p = split_newlines(s);
    let body = p.drop_last().map_values(|l: Seq<char>| strip_cr(l));
    if p.last().len() > 0 {
        body.push(p.last())
    } else {
        body
    }
}

/// The index of the last space in a line, if any.
pub open spec fn last_space(l: Seq<char>) -> Option<int>
    decreases l.len(),
{
    if l.len() == 0 {
        None
    } else if l.last() == ' ' {
        Some(l.len() - 1)
    } else {
        last_space(l.drop_last())
    }
}

/// What a character of a metric name becomes: '{' is shown as " (" and
/// '}' as ")".
pub open spec fn brace_piece(c: char) -> Seq<char> {
    if c == '{' {
        " ("@
    } else if c == '}' {
        ")"@
    } else {
        seq![c]
    }
}

/// A metric name with its label braces replaced.
pub open spec fn braces(s: Seq<char>) -> Seq<char>
    decreases s.len(),
{
    if s.len() == 0 {
        Seq::empty()
    } else {
        braces(s.drop_last()) + brace_piece(s.last())
    }
}

/// The display line of one metric line: none for comments, empty lines and
/// lines without a space; otherwise the name (labels in parentheses) padded
/// to 60 characters, then the value after the last space in cyan.
pub open spec fn metric_line(l: Seq<char>) -> Option<Seq<SpanView>> {
    if l.len() == 0 || l[0] == '#' {
        None
    } else {
        match last_space(l) {
            Some(k) => Some(
                seq![
                    ("  "@ + pad_right(braces(l.subrange(0, k)), 60) + " "@, None::<Tone>),
                    (l.subrange(k + 1, l.len() as int), Some(Tone::Cyan)),
                ],
            ),
            None => None,
        }
    }
}

/// The display lines of metric lines.
pub open spec fn metric_lines(ls: Seq<Seq<char>>) -> Seq<Seq<SpanView>>
    decreases ls.len(),
{
    if ls.len() == 0 {
        Seq::empty()
    } else {
        let prev = metric_lines(ls.drop_last());
        match metric_line(ls.last()) {
            Some(l) => prev.push(l),
            None => prev,
        }
    }
}

/// The lines `metrics` prints for the Prometheus text.
pub open spec fn metrics_lines(text: Seq<char>) -> Seq<Seq<SpanView>> {
    seq![toned("Metrics"@, Tone::Bold), plain(Seq::empty())] + metric_lines(text_lines(text))
}

proof fn lemma_last_space(l: Seq<char>, j: int)
    requires
        0 <= j <= l.len(),
        forall|m: int| j <= m < l.len() ==> l[m] != ' ',
    ensures
        last_space(l) == last_space(l.take(j)),
    decreases l.len() - j,
{
    if j < l.len() {
        lemma_last_space(l, j + 1);
        assert(l.take(j + 1).drop_last() =~= l.take(j));
    } else {
        assert(l.take(j) =~= l);
    }
}

proof fn lemma_last_space_found(l: Seq<char>, k: int)
    requires
        0 <= k < l.len(),
        l[k] == ' ',
    ensures
        last_space(l.take(k + 1)) == Some(k),
{
}

fn push_braced(out: &mut String, l: &Vec<char>, k: usize) -> (n: usize)
    requires
        k <= l@.len(),
    ensures
        final(out)@ == old(out)@ + braces(l@.subrange(0, k as int)),
        n == (if braces(l@.subrange(0, k as int)).len() < 60 {
            braces(l@.subrange(0, k as int)).len()
        } else {
            60
        }),
{
    let ghost before = out@;
    let mut n: usize = 0;
    let mut j: usize = 0;
    while j < k
        invariant
            j <= k <= l@.len(),
            out@ == before + braces(l@.subrange(0, j as int)),
            n == (if braces(l@.subrange(0, j as int)).len() < 60 {
                braces(l@.subrange(0, j as int)).len()
            } else {
                60
            }),
        decreases k - j,
    {
        let c = l[j];
        assert(l@.subrange(0, j + 1).drop_last() =~= l@.subrange(0, j as int));
        let step: usize = if c == '{' {
            out.push(' ');
            out.push('(');
            2
        } else if c == '}' {
            out.push(')');
            1
        } else {
            out.push(c);
            1
        };
        n = if n + step < 60 {
            n + step
        } else {
            60
        };
        proof {
            reveal_strlit(" (");
            reveal_strlit(")");
        }
        assert(out@ =~= before + braces(l@.subrange(0, j + 1)));
        j = j + 1;
    }
    n
}

/// The display line of a metric line (its first `len` characters).
pub fn metric_entry(l: &Vec<char>, len: usize) -> (r: Option<Vec<Span>>)
    requires
        len <= l@.len(),
    ensures
        match metric_line(l@.take(len as int)) {
            Some(v) => r is Some && crate::view::line_view(r->Some_0@) == v,
            None => r is None,
        },
{
    let ghost line = l@.take(len as int);
    if len == 0 || l[0] == '#' {
        return None;
    }
    let mut k: usize = len;
    while k > 0 && l[k - 1] != ' '
        invariant
            k <= len <= l@.len(),
            forall|m: int| k <= m < len ==> l@[m] != ' ',
        decreases k,
    {
        k = k - 1;
    }
    proof {
        assert forall|m: int| k <= m < line.len() implies line[m] != ' ' by {}
        lemma_last_space(line, k as int);
    }
    if k == 0 {
        assert(line.take(0) =~= Seq::<char>::empty());
        return None;
    }
    let sp = k - 1;
    proof {
        lemma_last_space_found(line, sp as int);
        assert(line.subrange(0, sp as int) =~= l@.subrange(0, sp as int));
    }
    let mut name = String::from_str("  ");
    let ghost start = name@;
    let n = push_braced(&mut name, l, sp);
    let ghost braced = braces(l@.subrange(0, sp as int));
    let mut pad: usize = n;
    while pad < 60
        invariant
            n <= pad <= 60,
            n == (if braced.len() < 60 { braced.len() as int } else { 60 }),
            name@ == start + braced + Seq::new((pad - n) as nat, |_i: int| ' '),
        decreases 60 - pad,
    {
        name.push(' ');
        assert(name@ =~= start + braced + Seq::new((pad + 1 - n) as nat, |_i: int| ' '));
        pad = pad + 1;
    }
    proof {
        reveal_strlit("  ");
        if braced.len() < 60 {
            assert(start + braced + Seq::new((pad - n) as nat, |_i: int| ' ') =~= "  "@ + pad_right(braced, 60));
        } else {
            assert(start + braced + Seq::new((pad - n) as nat, |_i: int| ' ') =~= "  "@ + pad_right(braced, 60));
        }
    }
    name.push(' ');
    let mut value = String::new();
    let mut j: usize = k;
    while j < len
        invariant
            k <= j <= len <= l@.len(),
            value@ == l@.subrange(k as int, j as int),
        decreases len - j,
    {
        value.push(l[j]);
        assert(value@ =~= l@.subrange(k as int, j + 1));
        j = j + 1;
    }
    let spans = vec![span(name), Span { text: value, tone: Some(Tone::Cyan) }];
    proof {
        reveal_strlit(" ");
        assert(line.subrange(k as int, line.len() as int) =~= l@.subrange(k as int, len as int));
        assert(crate::view::line_view(spans@) =~~= metric_line(line)->Some_0);
    }
    Some(spans)
}

/// What `metrics` prints (without `--raw`) for the Prometheus text.
pub fn metrics_view(text: &str) -> (d: Doc)
    ensures
        d.view_lines() == metrics_lines(text@),
{
    let chars = crate::strings::chars_of(text);
    let mut d = Doc::new();
    d.toned("Metrics", Tone::Bold);
    d.blank();
    let ghost head = d.view_lines();
    let ghost mut done: Seq<Seq<char>> = Seq::empty();
    let mut cur: Vec<char> = Vec::new();
    let mut i: usize = 0;
    while i < chars.len()
        invariant
            i <= chars@.len(),
            chars@ == text@,
            split_newlines(chars@.take(i as int)) == done.push(cur@),
            d.view_lines() == head + metric_lines(done.map_values(|l: Seq<char>| strip_cr(l))),
        decreases chars.len() - i,
    {
        let c = chars[i];
        proof {
            assert(chars@.take(i + 1).drop_last() =~= chars@.take(i as int));
        }
        if c == '\n' {
            let n = cur.len();
            let len = if n > 0 && cur[n - 1] == '\r' {
                n - 1
            } else {
                n
            };
            proof {
                assert(cur@.take(len as int) == strip_cr(cur@));
            }
            let ghost prev = d.view_lines();
            match metric_entry(&cur, len) {
                Some(spans) => d.push_line(spans),
                None => {},
            }
            proof {
                let stripped = done.map_values(|l: Seq<char>| strip_cr(l));
                let nd = done.push(cur@);
                assert(nd.map_values(|l: Seq<char>| strip_cr(l)) =~= stripped.push(strip_cr(cur@)));
                assert(stripped.push(strip_cr(cur@)).drop_last() =~= stripped);
                done = nd;
            }
            cur = Vec::new();
            assert(split_newlines(chars@.take(i + 1)) =~= done.push(cur@));
        } else {
            cur.push(c);
            proof {
                let r = split_newlines(chars@.take(i as int));
                assert(r.update(r.len() - 1, r.last().push(c)) =~= done.push(cur@));
            }
        }
        i = i + 1;
    }
    assert(chars@.take(chars@.len() as int) =~= chars@);
    let ghost p = split_newlines(text@);
    assert(p.drop_last() =~= done);
    assert(p.last() == cur@);
    if cur.len() > 0 {
        let n = cur.len();
        match metric_entry(&cur, n) {
            Some(spans) => d.push_line(spans),
            None => {},
        }
        proof {
            assert(cur@.take(n as int) =~= cur@);
            let stripped = done.map_values(|l: Seq<char>| strip_cr(l));
            assert(stripped.push(cur@).drop_last() =~= stripped);
        }
    }
    assert(d.view_lines() =~= metrics_lines(text@));
    d
}

/// The tone of a circuit breaker state.
pub open spec fn breaker_tone(state: Seq<char>) -> Option<Tone> {
    if state == "closed"@ {
        Some(Tone::Green)
    } else if state == "open"@ {
        Some(Tone::Red)
    } else if state == "half_open"@ || state == "half-open"@ {
        Some(Tone::Yellow)
    } else {
        None
    }
}

/// A breaker's state as shown: the string, or the compact JSON text of a
/// state that is not a string.
pub open spec fn breaker_state(v: JsonValue) -> Seq<char> {
    match as_str_spec(v) {
        Some(s) => s,
        None => serde_json_compact(v),
    }
}

/// The lines of the breakers, in the order the object yields its keys.
pub open spec fn breaker_lines(m: Map<Seq<char>, JsonValue>, keys: Seq<Seq<char>>) -> Seq<Seq<SpanView>>
    decreases keys.len(),
{
    if keys.len() == 0 {
        Seq::empty()
    } else {
        let k = keys.last();
        let st = breaker_state(m[k]);
        breaker_lines(m, keys.drop_last()).push(seq![("  "@ + k + ": "@, None::<Tone>), (st, breaker_tone(st))])
    }
}

/// Whether circuit breakers are enabled.
pub open spec fn breakers_enabled(resp: JsonValue) -> bool {
    crate::view::bool_or_false(resp, "enabled"@)
}

/// The lines of `connectors circuit-breakers` in table format.
pub open spec fn breakers_lines(resp: JsonValue) -> Seq<Seq<SpanView>> {
    seq![
        seq![
            ("INFO"@, Some(Tone::Bold)),
            (" Circuit breakers: "@, None::<Tone>),
            if breakers_enabled(resp) {
                ("enabled"@, Some(Tone::Green))
            } else {
                ("disabled"@, Some(Tone::Red))
            },
        ],
    ] + match field_opt(resp, "breakers"@) {
        Some(JsonValue::Object(m)) => if m.dom().len() == 0 {
            seq![toned("  No active circuit breakers."@, Tone::Dimmed)]
        } else {
            breaker_lines(m, serde_json_key_order(JsonValue::Object(m)))
        },
        _ => Seq::empty(),
    }
}

fn choose_breaker_tone(state: &str) -> (t: Option<Tone>)
    ensures
        t == breaker_tone(state@),
{
    if str_eq(state, "closed") {
        Some(Tone::Green)
    } else if str_eq(state, "open") {
        Some(Tone::Red)
    } else if str_eq(state, "half_open") || str_eq(state, "half-open") {
        Some(Tone::Yellow)
    } else {
        None
    }
}

/// What `connectors circuit-breakers` prints: whether breakers are enabled
/// when quiet, the document for JSON or YAML, the breaker lines otherwise.
pub fn breakers_view(resp: &Value, structured: bool, quiet: bool) -> (f: crate::watch::Finish)
    ensures
        f.code == 0,
        f.print_value == (!quiet && structured),
        f.doc.view_lines() == if quiet {
            seq![plain(crate::view::bool_text(breakers_enabled(json_content(*resp))))]
        } else if structured {
            Seq::<Seq<SpanView>>::empty()
        } else {
            breakers_lines(json_content(*resp))
        },
{
    let enabled = match crate::json::as_bool(field(resp, "enabled")) {
        Some(b) => b,
        None => false,
    };
    let mut d = Doc::new();
    if quiet {
        d.plain(String::from_str(if enabled { "true" } else { "false" }));
        return crate::watch::Finish { print_value: false, doc: d, code: 0 };
    }
    if structured {
        return crate::watch::Finish { print_value: true, doc: d, code: 0 };
    }
    let state = if enabled {
        tone_span("enabled", Tone::Green)
    } else {
        tone_span("disabled", Tone::Red)
    };
    let l1 = vec![tone_span("INFO", Tone::Bold), span(String::from_str(" Circuit breakers: ")), state];
    d.push_line(l1);
    let ghost head = d.view_lines();
    match get_field(resp, "breakers") {
        Some(b) => match object_entries(b) {
            Some(es) => {
                let ghost m = match json_content(*b) {
                    JsonValue::Object(m) => m,
                    _ => Map::empty(),
                };
                let ghost keys = entry_keys(es@);
                if es.len() == 0 {
                    d.toned("  No active circuit breakers.", Tone::Dimmed);
                } else {
                    let mut i: usize = 0;
                    while i < es.len()
                        invariant
                            i <= es@.len(),
                            keys == entry_keys(es@),
                            keys.len() == es@.len(),
                            forall|j: int| 0 <= j < es@.len() ==> m[(#[trigger] es@[j]).0@] == json_content(*es@[j].1),
                            d.view_lines() == head + breaker_lines(m, keys.take(i as int)),
                        decreases es.len() - i,
                    {
                        let (key, val) = es[i];
                        proof {
                            assert(keys.take(i + 1).drop_last() =~= keys.take(i as int));
                            assert(keys.take(i + 1).last() == key@);
                            assert(m[key@] == json_content(*val));
                        }
                        let st: String = match as_str(val) {
                            Some(t) => t.to_owned(),
                            None => to_compact(val),
                        };
                        let mut t = String::from_str("  ");
                        push_str(&mut t, key.as_str());
                        push_str(&mut t, ": ");
                        let tone = choose_breaker_tone(st.as_str());
                        d.pair(span(t), Span { text: st, tone });
                        assert(d.view_lines() =~~= head + breaker_lines(m, keys.take(i + 1)));
                        i = i + 1;
                    }
                    assert(keys.take(keys.len() as int) =~= keys);
                }
            },
            None => {},
        },
        None => {},
    }
    assert(d.view_lines() =~~= breakers_lines(json_content(*resp)));
    crate::watch::Finish { print_value: false, doc: d, code: 0 }
}

} // verus!
