//! Styled text the commands print: a document is a list of lines, a line a
//! list of spans, and a span a text with an optional tone. The commands
//! compute documents; printing them (and colouring the spans) is left to
//! the caller.
use vstd::prelude::*;
use serde_json::Value;
use crate::json::{
    as_bool, as_bool_spec, as_i64, as_i64_spec, as_str, as_str_spec, field, field_or_null,
    json_content, pretty_of, pretty_text, serde_json_compact, to_compact, JsonValue,
};
use crate::strings::{int_decimal, push_i64, push_str};
use crate::text::{choose_status_tone, status_tone, Tone};

verus! {

/// A piece of text and the tone it is shown in (none: the terminal's own).
#[derive(Debug)]
pub struct Span {
    pub text: String,
    pub tone: Option<Tone>,
}

/// The content of a span.
pub type SpanView = (Seq<char>, Option<Tone>);

/// The content of a line.
pub open spec fn line_view(l: Seq<Span>) -> Seq<SpanView> {
    l.map_values(|s: Span| (s.text@, s.tone))
}

/// A document: lines of spans.
#[derive(Debug)]
pub struct Doc {
    pub lines: Vec<Vec<Span>>,
}

impl Doc {
    /// The content of the document.
    pub open spec fn view_lines(&self) -> Seq<Seq<SpanView>> {
        self.lines@.map_values(|l: Vec<Span>| line_view(l@))
    }

    /// An empty document.
    pub fn new() -> (d: Doc)
        ensures
            d.view_lines() == Seq::<Seq<SpanView>>::empty(),
    {
        let d = Doc { lines: Vec::new() };
        assert(d.view_lines() =~= Seq::<Seq<SpanView>>::empty());
        d
    }

    /// Appends a line of spans.
    pub fn push_line(&mut self, spans: Vec<Span>)
        ensures
            final(self).view_lines() == old(self).view_lines().push(line_view(spans@)),
    {
        let ghost before = self.view_lines();
        self.lines.push(spans);
        assert(self.view_lines() =~= before.push(line_view(spans@)));
    }

    /// Appends a line of plain text.
    pub fn plain(&mut self, text: String)
        ensures
            final(self).view_lines() == old(self).view_lines().push(plain(text@)),
    {
        let spans = vec![Span { text, tone: None }];
        assert(line_view(spans@) =~= plain(text@));
        self.push_line(spans);
    }

    /// Appends an empty line.
    pub fn blank(&mut self)
        ensures
            final(self).view_lines() == old(self).view_lines().push(plain(Seq::empty())),
    {
        self.plain(String::new());
    }

    /// Appends a line of text in a tone.
    pub fn toned(&mut self, text: &str, tone: Tone)
        ensures
            final(self).view_lines() == old(self).view_lines().push(toned(text@, tone)),
    {
        let spans = vec![Span { text: text.to_owned(), tone: Some(tone) }];
        assert(line_view(spans@) =~= toned(text@, tone));
        self.push_line(spans);
    }

    /// Appends a line made of plain `label` and `value` shown in the tone of
    /// its lifecycle status.
    pub fn status(&mut self, label: &str, value: &str)
        ensures
            final(self).view_lines() == old(self).view_lines().push(status_line(label@, value@)),
    {
        let spans = vec![
            Span { text: label.to_owned(), tone: None },
            Span { text: value.to_owned(), tone: choose_status_tone(value) },
        ];
        assert(line_view(spans@) =~= status_line(label@, value@));
        self.push_line(spans);
    }

    /// Appends a line made of two spans.
    pub fn pair(&mut self, first: Span, second: Span)
        ensures
            final(self).view_lines() == old(self).view_lines().push(
                seq![(first.text@, first.tone), (second.text@, second.tone)],
            ),
    {
        let ghost f = (first.text@, first.tone);
        let ghost g = (second.text@, second.tone);
        let spans = vec![first, second];
        assert(line_view(spans@) =~= seq![f, g]);
        self.push_line(spans);
    }
}

/// A line of plain text.
pub open spec fn plain(text: Seq<char>) -> Seq<SpanView> {
    seq![(text, None::<Tone>)]
}

/// A line of text in a tone.
pub open spec fn toned(text: Seq<char>, tone: Tone) -> Seq<SpanView> {
    seq![(text, Some(tone))]
}

/// A label followed by a status in its tone.
pub open spec fn status_line(label: Seq<char>, status: Seq<char>) -> Seq<SpanView> {
    seq![(label, None::<Tone>), (status, status_tone(status))]
}

/// The string at `value[key]`, or `default`.
pub open spec fn str_or(c: JsonValue, key: Seq<char>, default: Seq<char>) -> Seq<char> {
    match as_str_spec(field_or_null(c, key)) {
        Some(s) => s,
        None => default,
    }
}

/// The integer at `value[key]`, or zero.
pub open spec fn int_or_zero(c: JsonValue, key: Seq<char>) -> int {
    match as_i64_spec(field_or_null(c, key)) {
        Some(n) => n as int,
        None => 0,
    }
}

/// The boolean at `value[key]`, or false.
pub open spec fn bool_or_false(c: JsonValue, key: Seq<char>) -> bool {
    match as_bool_spec(field_or_null(c, key)) {
        Some(b) => b,
        None => false,
    }
}

/// The text of a boolean as `Display` writes it.
pub open spec fn bool_text(b: bool) -> Seq<char> {
    if b {
        "true"@
    } else {
        "false"@
    }
}

/// The compact JSON text of `value[key]` (null when absent).
pub open spec fn compact_at(c: JsonValue, key: Seq<char>) -> Seq<char> {
    serde_json_compact(field_or_null(c, key))
}

/// `label` followed by the string at `value[key]` (or `default`).
pub fn label_str(label: &str, v: &Value, key: &str, default: &str) -> (s: String)
    ensures
        s@ == label@ + str_or(json_content(*v), key@, default@),
{
    let mut s = label.to_owned();
    match as_str(field(v, key)) {
        Some(t) => push_str(&mut s, t),
        None => push_str(&mut s, default),
    }
    s
}

/// `label` followed by the integer at `value[key]` (or zero).
pub fn label_int(label: &str, v: &Value, key: &str) -> (s: String)
    ensures
        s@ == label@ + int_decimal(int_or_zero(json_content(*v), key@)),
{
    let mut s = label.to_owned();
    let n = match as_i64(field(v, key)) {
        Some(n) => n,
        None => 0,
    };
    push_i64(&mut s, n);
    s
}

/// `label` followed by the integer at `value[key]` (or zero), then `suffix`.
pub fn label_int_suffix(label: &str, v: &Value, key: &str, suffix: &str) -> (s: String)
    ensures
        s@ == label@ + int_decimal(int_or_zero(json_content(*v), key@)) + suffix@,
{
    let mut s = label_int(label, v, key);
    push_str(&mut s, suffix);
    s
}

/// `label` followed by the boolean at `value[key]` (or false).
pub fn label_bool(label: &str, v: &Value, key: &str) -> (s: String)
    ensures
        s@ == label@ + bool_text(bool_or_false(json_content(*v), key@)),
{
    let mut s = label.to_owned();
    let b = match as_bool(field(v, key)) {
        Some(b) => b,
        None => false,
    };
    if b {
        push_str(&mut s, "true");
    } else {
        push_str(&mut s, "false");
    }
    s
}

/// `label` followed by the compact JSON text of `value[key]`.
pub fn label_json(label: &str, v: &Value, key: &str) -> (s: String)
    ensures
        s@ == label@ + compact_at(json_content(*v), key@),
{
    let mut s = label.to_owned();
    push_str(&mut s, to_compact(field(v, key)).as_str());
    s
}

/// `prefix`, `middle` and `suffix` as one string.
pub fn join3(prefix: &str, middle: &str, suffix: &str) -> (s: String)
    ensures
        s@ == prefix@ + middle@ + suffix@,
{
    let mut s = prefix.to_owned();
    push_str(&mut s, middle);
    push_str(&mut s, suffix);
    s
}

/// A plain span.
pub fn span(text: String) -> (s: Span)
    ensures
        s.text@ == text@,
        s.tone is None,
{
    Span { text, tone: None }
}

/// A span in a tone.
pub fn tone_span(text: &str, tone: Tone) -> (s: Span)
    ensures
        s.text@ == text@,
        s.tone == Some(tone),
{
    Span { text: text.to_owned(), tone: Some(tone) }
}

/// The string at `value[key]`, if it is one.
pub open spec fn str_at(c: JsonValue, key: Seq<char>) -> Option<Seq<char>> {
    as_str_spec(field_or_null(c, key))
}

/// A plain line `label + s` when `value[key]` is a string `s` (and, when
/// `skip_empty`, a non-empty one); nothing otherwise.
pub open spec fn opt_line(c: JsonValue, label: Seq<char>, key: Seq<char>, skip_empty: bool) -> Seq<Seq<SpanView>> {
    match str_at(c, key) {
        Some(s) => if skip_empty && s.len() == 0 {
            Seq::empty()
        } else {
            seq![plain(label + s)]
        },
        None => Seq::empty(),
    }
}

/// Appends `label + s` when `value[key]` is a string `s` (non-empty when
/// `skip_empty`).
pub fn push_opt_line(d: &mut Doc, v: &Value, label: &str, key: &str, skip_empty: bool)
    ensures
        final(d).view_lines() == old(d).view_lines() + opt_line(json_content(*v), label@, key@, skip_empty),
{
    let ghost before = d.view_lines();
    match as_str(field(v, key)) {
        Some(s) => {
            if !(skip_empty && s.unicode_len() == 0) {
                let mut t = label.to_owned();
                push_str(&mut t, s);
                d.plain(t);
            }
        },
        None => {},
    }
    assert(d.view_lines() =~= before + opt_line(json_content(*v), label@, key@, skip_empty));
}

/// A blank line, then a bold heading, then a pretty JSON text.
pub open spec fn json_section(heading: Seq<char>, c: JsonValue) -> Seq<Seq<SpanView>> {
    seq![plain(Seq::empty()), toned(heading, Tone::Bold), plain(pretty_of(c))]
}

/// Appends a blank line, a bold heading and the pretty text of a value.
pub fn push_json_section(d: &mut Doc, heading: &str, v: &Value)
    ensures
        final(d).view_lines() == old(d).view_lines() + json_section(heading@, json_content(*v)),
{
    let ghost before = d.view_lines();
    d.blank();
    d.toned(heading, Tone::Bold);
    d.plain(pretty_text(v));
    assert(d.view_lines() =~= before + json_section(heading@, json_content(*v)));
}

/// A blank line, then the red "Error:" label and the message.
pub open spec fn error_section(msg: Seq<char>) -> Seq<Seq<SpanView>> {
    seq![plain(Seq::empty()), seq![("Error:"@, Some(Tone::RedBold)), (" "@ + msg, None::<Tone>)]]
}

/// Appends a blank line and an error message line.
pub fn push_error_section(d: &mut Doc, msg: &str)
    ensures
        final(d).view_lines() == old(d).view_lines() + error_section(msg@),
{
    let ghost before = d.view_lines();
    d.blank();
    let mut t = String::from_str(" ");
    push_str(&mut t, msg);
    d.pair(tone_span("Error:", Tone::RedBold), span(t));
    assert(d.view_lines() =~= before + error_section(msg@));
}

} // verus!
