//! Listings: what the `list` commands print for a response. Each listing
//! names its columns (header, field and how the field is shown), what the
//! quiet mode prints, the message for an empty list and the footer.
use vstd::prelude::*;
use serde_json::Value;
use crate::json::{
    array_at, array_items, as_bool, as_i64, as_i64_spec, as_str, contents, field, field_or_null,
    json_content, millis_of, millis_text, JsonValue,
};
use crate::strings::{int_decimal, push_i64, push_str};
use crate::text::{
    choose_status_tone, status_tone, truncatable, truncate, can_truncate, truncated, Tone,
};
use crate::view::{bool_or_false, int_or_zero, plain, str_at, str_or, tone_span, Doc, Span, SpanView};

verus! {

/// How a field is shown in a cell.
#[derive(Clone, Copy, PartialEq, Eq, Debug)]
pub enum CellKind {
    /// The string, or `default`.
    Text { default: &'static str },
    /// The string (or `default`) truncated to `max` characters.
    Cut { default: &'static str, max: usize },
    /// A lifecycle status in its tone.
    Status,
    /// A rule status: active green, paused yellow, archived dimmed.
    RuleStatus,
    /// The integer, or 0.
    Int,
    /// The integer (or 0) followed by "%".
    Percent,
    /// The flag as "yes" in green or "no" in red.
    Enabled,
    /// A number of milliseconds with one decimal ("-" when absent).
    Millis,
}

/// One column of a listing.
#[derive(Clone, Copy, PartialEq, Eq, Debug)]
pub struct Column {
    pub header: &'static str,
    pub key: &'static str,
    pub kind: CellKind,
}

/// What the quiet mode prints for each item.
#[derive(Clone, Copy, PartialEq, Eq, Debug)]
pub enum QuietKey {
    /// The string at this key, for the items that have one.
    Text(&'static str),
    /// The integer at this key (0 when absent), for every item.
    Int(&'static str),
}

/// Where the footer's total comes from.
#[derive(Clone, Copy, PartialEq, Eq, Debug)]
pub enum TotalSource {
    /// `response["total"]`, else the number of items.
    Total,
    /// `response["pagination"]["total"]`, else the number of items.
    PaginationTotal,
    /// The number of items.
    Count,
}

/// A listing.
pub struct Listing {
    pub quiet: QuietKey,
    pub columns: Vec<Column>,
    pub empty_message: &'static str,
    pub footer_suffix: &'static str,
    pub total: TotalSource,
}

/// The tone of a rule status.
pub open spec fn rule_status_tone(s: Seq<char>) -> Option<Tone> {
    if s == "active"@ {
        Some(Tone::Green)
    } else if s == "paused"@ {
        Some(Tone::Yellow)
    } else if s == "archived"@ {
        Some(Tone::Dimmed)
    } else {
        None
    }
}

/// Chooses the tone of a rule status.
pub fn choose_rule_status_tone(s: &str) -> (t: Option<Tone>)
    ensures
        t == rule_status_tone(s@),
{
    if crate::strings::str_eq(s, "active") {
        Some(Tone::Green)
    } else if crate::strings::str_eq(s, "paused") {
        Some(Tone::Yellow)
    } else if crate::strings::str_eq(s, "archived") {
        Some(Tone::Dimmed)
    } else {
        None
    }
}

/// The cell of an item in a column.
pub open spec fn cell_spec(item: JsonValue, col: Column) -> SpanView {
    match col.kind {
        CellKind::Text { default } => (str_or(item, col.key@, default@), None),
        CellKind::Cut { default, max } => (truncated(str_or(item, col.key@, default@), max as int), None),
        CellKind::Status => {
            let s = str_or(item, col.key@, ""@);
            (s, status_tone(s))
        },
        CellKind::RuleStatus => {
            let s = str_or(item, col.key@, ""@);
            (s, rule_status_tone(s))
        },
        CellKind::Int => (int_decimal(int_or_zero(item, col.key@)), None),
        CellKind::Percent => (int_decimal(int_or_zero(item, col.key@)) + "%"@, None),
        CellKind::Enabled => if bool_or_false(item, col.key@) {
            ("yes"@, Some(Tone::Green))
        } else {
            ("no"@, Some(Tone::Red))
        },
        CellKind::Millis => match millis_text(field_or_null(item, col.key@)) {
            Some(t) => (t, None),
            None => ("-"@, None),
        },
    }
}

/// Whether a cell can be computed (a truncated field can be cut).
pub open spec fn cell_ok(item: JsonValue, col: Column) -> bool {
    match col.kind {
        CellKind::Cut { default, max } => truncatable(str_or(item, col.key@, default@), max as int),
        _ => true,
    }
}

/// Whether every cell of every item can be computed.
pub open spec fn rows_ok(items: Seq<JsonValue>, cols: Seq<Column>) -> bool {
    forall|i: int, j: int| 0 <= i < items.len() && 0 <= j < cols.len() ==> cell_ok(#[trigger] items[i], #[trigger] cols[j])
}

/// The row of an item.
pub open spec fn row_spec(item: JsonValue, cols: Seq<Column>) -> Seq<SpanView> {
    cols.map_values(|c: Column| cell_spec(item, c))
}

/// The content of a row of spans.
pub open spec fn row_view(r: Seq<Span>) -> Seq<SpanView> {
    r.map_values(|s: Span| (s.text@, s.tone))
}

fn text_or<'a>(v: &'a Value, key: &str, default: &'a str) -> (s: &'a str)
    ensures
        s@ == str_or(json_content(*v), key@, default@),
{
    match as_str(field(v, key)) {
        Some(t) => t,
        None => default,
    }
}

fn int_text(v: &Value, key: &str) -> (s: String)
    ensures
        s@ == int_decimal(int_or_zero(json_content(*v), key@)),
{
    let n = match as_i64(field(v, key)) {
        Some(n) => n,
        None => 0,
    };
    let mut s = String::new();
    push_i64(&mut s, n);
    s
}

/// The cell of an item in a column.
pub fn cell(item: &Value, col: &Column) -> (c: Span)
    requires
        cell_ok(json_content(*item), *col),
    ensures
        (c.text@, c.tone) == cell_spec(json_content(*item), *col),
{
    proof {
        reveal_strlit("");
    }
    match col.kind {
        CellKind::Text { default } => Span { text: text_or(item, col.key, default).to_owned(), tone: None },
        CellKind::Cut { default, max } => Span { text: truncate(text_or(item, col.key, default), max), tone: None },
        CellKind::Status => {
            let s = text_or(item, col.key, "");
            Span { text: s.to_owned(), tone: choose_status_tone(s) }
        },
        CellKind::RuleStatus => {
            let s = text_or(item, col.key, "");
            Span { text: s.to_owned(), tone: choose_rule_status_tone(s) }
        },
        CellKind::Int => Span { text: int_text(item, col.key), tone: None },
        CellKind::Percent => {
            let mut s = int_text(item, col.key);
            push_str(&mut s, "%");
            Span { text: s, tone: None }
        },
        CellKind::Enabled => {
            let b = match as_bool(field(item, col.key)) {
                Some(b) => b,
                None => false,
            };
            if b {
                tone_span("yes", Tone::Green)
            } else {
                tone_span("no", Tone::Red)
            }
        },
        CellKind::Millis => match millis_of(field(item, col.key)) {
            Some(t) => Span { text: t, tone: None },
            None => Span { text: String::from_str("-"), tone: None },
        },
    }
}

/// Whether a cell can be computed (see `cell_ok`).
pub fn cell_possible(item: &Value, col: &Column) -> (b: bool)
    ensures
        b == cell_ok(json_content(*item), *col),
{
    match col.kind {
        CellKind::Cut { default, max } => can_truncate(text_or(item, col.key, default), max),
        _ => true,
    }
}

/// The row of an item.
pub fn row(item: &Value, cols: &Vec<Column>) -> (r: Vec<Span>)
    requires
        forall|j: int| 0 <= j < cols@.len() ==> cell_ok(json_content(*item), #[trigger] cols@[j]),
    ensures
        row_view(r@) == row_spec(json_content(*item), cols@),
{
    let mut r: Vec<Span> = Vec::new();
    let mut j: usize = 0;
    while j < cols.len()
        invariant
            j <= cols@.len(),
            forall|k: int| 0 <= k < cols@.len() ==> cell_ok(json_content(*item), #[trigger] cols@[k]),
            row_view(r@) == row_spec(json_content(*item), cols@.take(j as int)),
        decreases cols.len() - j,
    {
        let ghost before = r@;
        let c = cell(item, &cols[j]);
        r.push(c);
        assert(row_view(r@) =~= row_view(before).push((c.text@, c.tone)));
        assert(row_spec(json_content(*item), cols@.take(j + 1)) =~= row_spec(json_content(*item), cols@.take(j as int)).push(
            cell_spec(json_content(*item), cols@[j as int]),
        ));
        j = j + 1;
    }
    assert(cols@.take(cols@.len() as int) =~= cols@);
    r
}

/// Whether every cell of every item can be computed (see `rows_ok`).
pub fn rows_possible(items: &[Value], cols: &Vec<Column>) -> (b: bool)
    ensures
        b == rows_ok(contents(items@), cols@),
{
    let mut i: usize = 0;
    while i < items.len()
        invariant
            i <= items.len(),
            forall|a: int, k: int| 0 <= a < i && 0 <= k < cols@.len() ==> cell_ok(#[trigger] contents(items@)[a], #[trigger] cols@[k]),
        decreases items.len() - i,
    {
        let mut j: usize = 0;
        while j < cols.len()
            invariant
                i < items.len(),
                j <= cols@.len(),
                forall|a: int, k: int| 0 <= a < i && 0 <= k < cols@.len() ==> cell_ok(#[trigger] contents(items@)[a], #[trigger] cols@[k]),
                forall|k: int| 0 <= k < j ==> cell_ok(contents(items@)[i as int], #[trigger] cols@[k]),
            decreases cols.len() - j,
        {
            if !cell_possible(&items[i], &cols[j]) {
                assert(contents(items@)[i as int] == json_content(items@[i as int]));
                assert(!cell_ok(contents(items@)[i as int], cols@[j as int]));
                return false;
            }
            assert(contents(items@)[i as int] == json_content(items@[i as int]));
            j = j + 1;
        }
        i = i + 1;
    }
    true
}

/// The rows of a list of items.
pub open spec fn rows_spec(items: Seq<JsonValue>, cols: Seq<Column>) -> Seq<Seq<SpanView>> {
    items.map_values(|it: JsonValue| row_spec(it, cols))
}

/// The rows of a list of items.
pub fn rows(items: &[Value], cols: &Vec<Column>) -> (rs: Vec<Vec<Span>>)
    requires
        rows_ok(contents(items@), cols@),
    ensures
        rs@.map_values(|r: Vec<Span>| row_view(r@)) == rows_spec(contents(items@), cols@),
{
    let mut rs: Vec<Vec<Span>> = Vec::new();
    let mut i: usize = 0;
    while i < items.len()
        invariant
            i <= items.len(),
            rows_ok(contents(items@), cols@),
            rs@.map_values(|r: Vec<Span>| row_view(r@)) == rows_spec(contents(items@).take(i as int), cols@),
        decreases items.len() - i,
    {
        assert forall|j: int| 0 <= j < cols@.len() implies cell_ok(json_content(items@[i as int]), #[trigger] cols@[j]) by {
            assert(contents(items@)[i as int] == json_content(items@[i as int]));
        }
        let ghost before = rs@;
        let r = row(&items[i], cols);
        rs.push(r);
        assert(rs@.map_values(|r: Vec<Span>| row_view(r@)) =~= before.map_values(|r: Vec<Span>| row_view(r@)).push(row_view(r@)));
        assert(rows_spec(contents(items@).take(i + 1), cols@) =~= rows_spec(contents(items@).take(i as int), cols@).push(
            row_spec(json_content(items@[i as int]), cols@),
        ));
        i = i + 1;
    }
    assert(contents(items@).take(items@.len() as int) =~= contents(items@));
    rs
}

/// What a list command prints.
pub enum ListOutcome {
    /// The whole response as a document (JSON or YAML output).
    PrintValue,
    /// Plain lines: the quiet output, or the message for an empty list.
    Lines(Doc),
    /// A table of rows, then a footer.
    Table { rows: Vec<Vec<Span>>, footer: Doc },
}

/// The quiet output of a listing.
pub open spec fn quiet_lines(items: Seq<JsonValue>, q: QuietKey) -> Seq<Seq<SpanView>>
    decreases items.len(),
{
    if items.len() == 0 {
        Seq::empty()
    } else {
        let prev = quiet_lines(items.drop_last(), q);
        match q {
            QuietKey::Text(key) => match str_at(items.last(), key@) {
                Some(s) => prev.push(plain(s)),
                None => prev,
            },
            QuietKey::Int(key) => prev.push(plain(int_decimal(int_or_zero(items.last(), key@)))),
        }
    }
}

/// The total shown in a listing's footer.
pub open spec fn total_of(resp: JsonValue, items: Seq<JsonValue>, t: TotalSource) -> int {
    let reported = match t {
        TotalSource::Total => as_i64_spec(field_or_null(resp, "total"@)),
        TotalSource::PaginationTotal => as_i64_spec(
            field_or_null(field_or_null(resp, "pagination"@), "total"@),
        ),
        TotalSource::Count => None,
    };
    match reported {
        Some(n) => n as int,
        None => (items.len() as i64) as int,
    }
}

/// Whether `o` is what a listing prints for a response.
pub open spec fn list_outcome_spec(o: ListOutcome, resp: JsonValue, quiet: bool, structured: bool, l: Listing) -> bool {
    let items = array_at(resp, "data"@);
    if quiet {
        o matches ListOutcome::Lines(d) && d.view_lines() == quiet_lines(items, l.quiet)
    } else if structured {
        o is PrintValue
    } else if items.len() == 0 {
        o matches ListOutcome::Lines(d) && d.view_lines() == seq![
            seq![(l.empty_message@, Some(Tone::Dimmed))],
        ]
    } else {
        o matches ListOutcome::Table { rows, footer } && rows@.map_values(|r: Vec<Span>| row_view(r@))
            == rows_spec(items, l.columns@) && footer.view_lines() == seq![
            seq![(int_decimal(total_of(resp, items, l.total)) + l.footer_suffix@, Some(Tone::Dimmed))],
        ]
    }
}

fn quiet_doc(items: &Vec<Value>, q: QuietKey) -> (d: Doc)
    ensures
        d.view_lines() == quiet_lines(contents(items@), q),
{
    let mut d = Doc::new();
    let ghost s = contents(items@);
    let mut i: usize = 0;
    while i < items.len()
        invariant
            i <= items.len(),
            s == contents(items@),
            d.view_lines() == quiet_lines(s.take(i as int), q),
        decreases items.len() - i,
    {
        proof {
            assert(s.take(i + 1).drop_last() =~= s.take(i as int));
            assert(s.take(i + 1).last() == json_content(items@[i as int]));
        }
        match q {
            QuietKey::Text(key) => match as_str(field(&items[i], key)) {
                Some(t) => d.plain(t.to_owned()),
                None => {},
            },
            QuietKey::Int(key) => d.plain(int_text(&items[i], key)),
        }
        i = i + 1;
    }
    assert(s.take(s.len() as int) =~= s);
    d
}

fn total_number(resp: &Value, count: usize, t: TotalSource) -> (n: i64)
    ensures
        n as int == match t {
            TotalSource::Total => match as_i64_spec(field_or_null(json_content(*resp), "total"@)) {
                Some(m) => m as int,
                None => (count as i64) as int,
            },
            TotalSource::PaginationTotal => match as_i64_spec(
                field_or_null(field_or_null(json_content(*resp), "pagination"@), "total"@),
            ) {
                Some(m) => m as int,
                None => (count as i64) as int,
            },
            TotalSource::Count => (count as i64) as int,
        },
{
    let reported = match t {
        TotalSource::Total => as_i64(field(resp, "total")),
        TotalSource::PaginationTotal => as_i64(field(field(resp, "pagination"), "total")),
        TotalSource::Count => None,
    };
    match reported {
        Some(m) => m,
        None => count as i64,
    }
}

/// What a list command prints for its response.
pub fn list_outcome(resp: &Value, quiet: bool, structured: bool, l: &Listing) -> (o: ListOutcome)
    requires
        !quiet && !structured ==> rows_ok(array_at(json_content(*resp), "data"@), l.columns@),
    ensures
        list_outcome_spec(o, json_content(*resp), quiet, structured, *l),
{
    let items = array_items(resp, "data");
    if quiet {
        return ListOutcome::Lines(quiet_doc(&items, l.quiet));
    }
    if structured {
        return ListOutcome::PrintValue;
    }
    if items.len() == 0 {
        let mut d = Doc::new();
        d.toned(l.empty_message, Tone::Dimmed);
        assert(d.view_lines() =~~= seq![seq![(l.empty_message@, Some(Tone::Dimmed))]]);
        return ListOutcome::Lines(d);
    }
    let rs = rows(items.as_slice(), &l.columns);
    let total = total_number(resp, items.len(), l.total);
    let mut text = String::new();
    push_i64(&mut text, total);
    push_str(&mut text, l.footer_suffix);
    let mut footer = Doc::new();
    footer.push_line(vec![Span { text, tone: Some(Tone::Dimmed) }]);
    proof {
        let ghost it = array_at(json_content(*resp), "data"@);
        assert(total as int == total_of(json_content(*resp), it, l.total));
    }
    assert(footer.view_lines() =~~= seq![
        seq![(int_decimal(total_of(json_content(*resp), array_at(json_content(*resp), "data"@), l.total)) + l.footer_suffix@, Some(Tone::Dimmed))],
    ]);
    ListOutcome::Table { rows: rs, footer }
}

/// The listing of `workflows list`.
pub fn workflows_listing() -> (l: Listing)
    ensures
        l.quiet == QuietKey::Text("workflow_id"),
        l.columns@ == seq![
            Column { header: "ID", key: "workflow_id", kind: CellKind::Cut { default: "", max: 12 } },
            Column { header: "Name", key: "name", kind: CellKind::Cut { default: "", max: 30 } },
            Column { header: "Status", key: "status", kind: CellKind::Status },
            Column { header: "Priority", key: "priority", kind: CellKind::Int },
            Column { header: "Rollout", key: "rollout_percentage", kind: CellKind::Percent },
            Column { header: "Version", key: "version", kind: CellKind::Int },
        ],
        l.empty_message@ == "No workflows found."@,
        l.footer_suffix@ == " workflow(s)"@,
        l.total == TotalSource::Total,
{
    let columns = vec![
        Column { header: "ID", key: "workflow_id", kind: CellKind::Cut { default: "", max: 12 } },
        Column { header: "Name", key: "name", kind: CellKind::Cut { default: "", max: 30 } },
        Column { header: "Status", key: "status", kind: CellKind::Status },
        Column { header: "Priority", key: "priority", kind: CellKind::Int },
        Column { header: "Rollout", key: "rollout_percentage", kind: CellKind::Percent },
        Column { header: "Version", key: "version", kind: CellKind::Int },
    ];
    Listing { quiet: QuietKey::Text("workflow_id"), columns, empty_message: "No workflows found.", footer_suffix: " workflow(s)", total: TotalSource::Total }
}

/// The listing of `workflows versions`.
pub fn workflow_versions_listing() -> (l: Listing)
    ensures
        l.quiet == QuietKey::Int("version"),
        l.columns@ == seq![
            Column { header: "Version", key: "version", kind: CellKind::Int },
            Column { header: "Status", key: "status", kind: CellKind::Status },
            Column { header: "Priority", key: "priority", kind: CellKind::Int },
            Column { header: "Updated", key: "updated_at", kind: CellKind::Text { default: "" } },
        ],
        l.empty_message@ == "No versions found."@,
        l.footer_suffix@ == " version(s)"@,
        l.total == TotalSource::Total,
{
    let columns = vec![
        Column { header: "Version", key: "version", kind: CellKind::Int },
        Column { header: "Status", key: "status", kind: CellKind::Status },
        Column { header: "Priority", key: "priority", kind: CellKind::Int },
        Column { header: "Updated", key: "updated_at", kind: CellKind::Text { default: "" } },
    ];
    Listing { quiet: QuietKey::Int("version"), columns, empty_message: "No versions found.", footer_suffix: " version(s)", total: TotalSource::Total }
}

/// The listing of `rules list`.
pub fn rules_listing() -> (l: Listing)
    ensures
        l.quiet == QuietKey::Text("id"),
        l.columns@ == seq![
            Column { header: "ID", key: "id", kind: CellKind::Cut { default: "", max: 12 } },
            Column { header: "Name", key: "name", kind: CellKind::Cut { default: "", max: 30 } },
            Column { header: "Channel", key: "channel", kind: CellKind::Text { default: "" } },
            Column { header: "Status", key: "status", kind: CellKind::RuleStatus },
            Column { header: "Priority", key: "priority", kind: CellKind::Int },
            Column { header: "Version", key: "version", kind: CellKind::Int },
        ],
        l.empty_message@ == "No rules found."@,
        l.footer_suffix@ == " rule(s)"@,
        l.total == TotalSource::Total,
{
    let columns = vec![
        Column { header: "ID", key: "id", kind: CellKind::Cut { default: "", max: 12 } },
        Column { header: "Name", key: "name", kind: CellKind::Cut { default: "", max: 30 } },
        Column { header: "Channel", key: "channel", kind: CellKind::Text { default: "" } },
        Column { header: "Status", key: "status", kind: CellKind::RuleStatus },
        Column { header: "Priority", key: "priority", kind: CellKind::Int },
        Column { header: "Version", key: "version", kind: CellKind::Int },
    ];
    Listing { quiet: QuietKey::Text("id"), columns, empty_message: "No rules found.", footer_suffix: " rule(s)", total: TotalSource::Total }
}

/// The listing of `channels list`.
pub fn channels_listing() -> (l: Listing)
    ensures
        l.quiet == QuietKey::Text("channel_id"),
        l.columns@ == seq![
            Column { header: "ID", key: "channel_id", kind: CellKind::Cut { default: "", max: 12 } },
            Column { header: "Name", key: "name", kind: CellKind::Cut { default: "", max: 25 } },
            Column { header: "Type", key: "channel_type", kind: CellKind::Text { default: "" } },
            Column { header: "Protocol", key: "protocol", kind: CellKind::Text { default: "" } },
            Column { header: "Workflow", key: "workflow_id", kind: CellKind::Cut { default: "(none)", max: 12 } },
            Column { header: "Status", key: "status", kind: CellKind::Status },
            Column { header: "Version", key: "version", kind: CellKind::Int },
        ],
        l.empty_message@ == "No channels found."@,
        l.footer_suffix@ == " channel(s)"@,
        l.total == TotalSource::Total,
{
    let columns = vec![
        Column { header: "ID", key: "channel_id", kind: CellKind::Cut { default: "", max: 12 } },
        Column { header: "Name", key: "name", kind: CellKind::Cut { default: "", max: 25 } },
        Column { header: "Type", key: "channel_type", kind: CellKind::Text { default: "" } },
        Column { header: "Protocol", key: "protocol", kind: CellKind::Text { default: "" } },
        Column { header: "Workflow", key: "workflow_id", kind: CellKind::Cut { default: "(none)", max: 12 } },
        Column { header: "Status", key: "status", kind: CellKind::Status },
        Column { header: "Version", key: "version", kind: CellKind::Int },
    ];
    Listing { quiet: QuietKey::Text("channel_id"), columns, empty_message: "No channels found.", footer_suffix: " channel(s)", total: TotalSource::Total }
}

/// The listing of `channels versions`.
pub fn channel_versions_listing() -> (l: Listing)
    ensures
        l.quiet == QuietKey::Int("version"),
        l.columns@ == seq![
            Column { header: "Version", key: "version", kind: CellKind::Int },
            Column { header: "Status", key: "status", kind: CellKind::Status },
            Column { header: "Updated", key: "updated_at", kind: CellKind::Text { default: "" } },
        ],
        l.empty_message@ == "No versions found."@,
        l.footer_suffix@ == " version(s)"@,
        l.total == TotalSource::Total,
{
    let columns = vec![
        Column { header: "Version", key: "version", kind: CellKind::Int },
        Column { header: "Status", key: "status", kind: CellKind::Status },
        Column { header: "Updated", key: "updated_at", kind: CellKind::Text { default: "" } },
    ];
    Listing { quiet: QuietKey::Int("version"), columns, empty_message: "No versions found.", footer_suffix: " version(s)", total: TotalSource::Total }
}

/// The listing of `connectors list`.
pub fn connectors_listing() -> (l: Listing)
    ensures
        l.quiet == QuietKey::Text("id"),
        l.columns@ == seq![
            Column { header: "ID", key: "id", kind: CellKind::Cut { default: "", max: 12 } },
            Column { header: "Name", key: "name", kind: CellKind::Text { default: "" } },
            Column { header: "Type", key: "connector_type", kind: CellKind::Text { default: "" } },
            Column { header: "Enabled", key: "enabled", kind: CellKind::Enabled },
        ],
        l.empty_message@ == "No connectors found."@,
        l.footer_suffix@ == " connector(s)"@,
        l.total == TotalSource::Total,
{
    let columns = vec![
        Column { header: "ID", key: "id", kind: CellKind::Cut { default: "", max: 12 } },
        Column { header: "Name", key: "name", kind: CellKind::Text { default: "" } },
        Column { header: "Type", key: "connector_type", kind: CellKind::Text { default: "" } },
        Column { header: "Enabled", key: "enabled", kind: CellKind::Enabled },
    ];
    Listing { quiet: QuietKey::Text("id"), columns, empty_message: "No connectors found.", footer_suffix: " connector(s)", total: TotalSource::Total }
}

/// The listing of `traces list`.
pub fn traces_listing() -> (l: Listing)
    ensures
        l.quiet == QuietKey::Text("id"),
        l.columns@ == seq![
            Column { header: "ID", key: "id", kind: CellKind::Cut { default: "", max: 12 } },
            Column { header: "Channel", key: "channel", kind: CellKind::Text { default: "" } },
            Column { header: "Mode", key: "mode", kind: CellKind::Text { default: "" } },
            Column { header: "Status", key: "status", kind: CellKind::Status },
            Column { header: "Duration", key: "duration_ms", kind: CellKind::Millis },
            Column { header: "Created", key: "created_at", kind: CellKind::Text { default: "" } },
        ],
        l.empty_message@ == "No traces found."@,
        l.footer_suffix@ == " trace(s)"@,
        l.total == TotalSource::Total,
{
    let columns = vec![
        Column { header: "ID", key: "id", kind: CellKind::Cut { default: "", max: 12 } },
        Column { header: "Channel", key: "channel", kind: CellKind::Text { default: "" } },
        Column { header: "Mode", key: "mode", kind: CellKind::Text { default: "" } },
        Column { header: "Status", key: "status", kind: CellKind::Status },
        Column { header: "Duration", key: "duration_ms", kind: CellKind::Millis },
        Column { header: "Created", key: "created_at", kind: CellKind::Text { default: "" } },
    ];
    Listing { quiet: QuietKey::Text("id"), columns, empty_message: "No traces found.", footer_suffix: " trace(s)", total: TotalSource::Total }
}

/// The listing of `functions list`.
pub fn functions_listing() -> (l: Listing)
    ensures
        l.quiet == QuietKey::Text("name"),
        l.columns@ == seq![
            Column { header: "Function", key: "name", kind: CellKind::Text { default: "" } },
            Column { header: "Category", key: "category", kind: CellKind::Text { default: "" } },
            Column { header: "Description", key: "description", kind: CellKind::Cut { default: "", max: 60 } },
        ],
        l.empty_message@ == "No functions registered."@,
        l.footer_suffix@ == " function(s)"@,
        l.total == TotalSource::Count,
{
    let columns = vec![
        Column { header: "Function", key: "name", kind: CellKind::Text { default: "" } },
        Column { header: "Category", key: "category", kind: CellKind::Text { default: "" } },
        Column { header: "Description", key: "description", kind: CellKind::Cut { default: "", max: 60 } },
    ];
    Listing { quiet: QuietKey::Text("name"), columns, empty_message: "No functions registered.", footer_suffix: " function(s)", total: TotalSource::Count }
}

/// The listing of `audit-logs list`.
pub fn audit_logs_listing() -> (l: Listing)
    ensures
        l.quiet == QuietKey::Text("id"),
        l.columns@ == seq![
            Column { header: "ID", key: "id", kind: CellKind::Cut { default: "", max: 12 } },
            Column { header: "Principal", key: "principal", kind: CellKind::Text { default: "" } },
            Column { header: "Action", key: "action", kind: CellKind::Text { default: "" } },
            Column { header: "Resource Type", key: "resource_type", kind: CellKind::Text { default: "" } },
            Column { header: "Resource ID", key: "resource_id", kind: CellKind::Cut { default: "", max: 20 } },
            Column { header: "Created", key: "created_at", kind: CellKind::Text { default: "" } },
        ],
        l.empty_message@ == "No audit log entries found."@,
        l.footer_suffix@ == " audit log entry(ies)"@,
        l.total == TotalSource::PaginationTotal,
{
    let columns = vec![
        Column { header: "ID", key: "id", kind: CellKind::Cut { default: "", max: 12 } },
        Column { header: "Principal", key: "principal", kind: CellKind::Text { default: "" } },
        Column { header: "Action", key: "action", kind: CellKind::Text { default: "" } },
        Column { header: "Resource Type", key: "resource_type", kind: CellKind::Text { default: "" } },
        Column { header: "Resource ID", key: "resource_id", kind: CellKind::Cut { default: "", max: 20 } },
        Column { header: "Created", key: "created_at", kind: CellKind::Text { default: "" } },
    ];
    Listing { quiet: QuietKey::Text("id"), columns, empty_message: "No audit log entries found.", footer_suffix: " audit log entry(ies)", total: TotalSource::PaginationTotal }
}

} // verus!
