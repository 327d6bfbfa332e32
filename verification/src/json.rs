//! JSON documents. The library carries `serde_json::Value` values and speaks
//! of them through `json_content`, the document a value holds; every access
//! goes through one of the small trusted wrappers below.
use vstd::prelude::*;
use serde_json::Value;
use crate::strings::push_str;

verus! {

/// The document a JSON value holds. Numbers written without a fractional
/// part or exponent that fit in a `u64` or an `i64` are integers (other than
/// "-0"); every other number is a finite float, kept here by its IEEE-754
/// bit pattern.
/// Objects map each key to its value; key order is not part of the content.
pub enum JsonValue {
    Null,
    Bool(bool),
    Int(int),
    Float(u64),
    Str(Seq<char>),
    Array(Seq<JsonValue>),
    Object(Map<Seq<char>, JsonValue>),
}

#[verifier::external_type_specification]
#[verifier::external_body]
pub struct ExValue(serde_json::Value);

/// The document held by a `serde_json::Value`.
pub uninterp spec fn json_content(v: Value) -> JsonValue;

/// What `serde_json::from_str::<Value>` gives for a text: the document it
/// parses, or the text of the error it reports.
pub uninterp spec fn serde_json_parse(text: Seq<char>) -> Result<JsonValue, Seq<char>>;

/// What `serde_json::from_str::<Vec<Value>>` gives for a text: the
/// documents of the array it parses, or the text of the error it reports.
pub uninterp spec fn serde_json_parse_list(text: Seq<char>) -> Result<Seq<JsonValue>, Seq<char>>;

/// The compact text `serde_json` writes for a document (`Display`).
pub uninterp spec fn serde_json_compact(v: JsonValue) -> Seq<char>;

/// What `serde_json::to_string_pretty` gives for a document.
pub uninterp spec fn serde_json_pretty(v: JsonValue) -> Result<Seq<char>, Seq<char>>;

/// What `serde_yaml::to_string` gives for a document.
pub uninterp spec fn serde_yaml_text(v: JsonValue) -> Result<Seq<char>, Seq<char>>;

/// The value at `key` of an object, or null when the document is not an
/// object or has no such key (what `value[key]` reads).
pub open spec fn field_or_null(c: JsonValue, key: Seq<char>) -> JsonValue {
    match c {
        JsonValue::Object(m) => if m.dom().contains(key) {
            m[key]
        } else {
            JsonValue::Null
        },
        _ => JsonValue::Null,
    }
}

/// The value at `key` of an object, if present.
pub open spec fn field_opt(c: JsonValue, key: Seq<char>) -> Option<JsonValue> {
    match c {
        JsonValue::Object(m) => if m.dom().contains(key) {
            Some(m[key])
        } else {
            None
        },
        _ => None,
    }
}

/// The string a document is, if it is one.
pub open spec fn as_str_spec(c: JsonValue) -> Option<Seq<char>> {
    match c {
        JsonValue::Str(s) => Some(s),
        _ => None,
    }
}

/// The boolean a document is, if it is one.
pub open spec fn as_bool_spec(c: JsonValue) -> Option<bool> {
    match c {
        JsonValue::Bool(b) => Some(b),
        _ => None,
    }
}

/// The number as an `i64`, when it is an integer in range.
pub open spec fn as_i64_spec(c: JsonValue) -> Option<i64> {
    match c {
        JsonValue::Int(n) => if i64::MIN <= n && n <= i64::MAX {
            Some(n as i64)
        } else {
            None
        },
        _ => None,
    }
}

/// The number as a `u64`, when it is a non-negative integer in range.
pub open spec fn as_u64_spec(c: JsonValue) -> Option<u64> {
    match c {
        JsonValue::Int(n) => if 0 <= n && n <= u64::MAX {
            Some(n as u64)
        } else {
            None
        },
        _ => None,
    }
}

/// The object with `key` set to `value`, a null document counting as an
/// empty object (what `doc[key] = value` does).
pub open spec fn with_field(c: JsonValue, key: Seq<char>, value: JsonValue) -> JsonValue {
    match c {
        JsonValue::Object(m) => JsonValue::Object(m.insert(key, value)),
        _ => JsonValue::Object(Map::<Seq<char>, JsonValue>::empty().insert(key, value)),
    }
}

/// Whether a document can be indexed by a key for writing: an object or null.
pub open spec fn is_object_or_null(c: JsonValue) -> bool {
    c is Object || c is Null
}

/// Parses JSON text with `serde_json::from_str::<Value>`, giving the error's
/// `Display` text on failure. Both outcomes are named by `serde_json_parse`.
#[verifier::external_body]
pub(crate) fn parse_json(text: &str) -> (res: Result<Value, String>)
    ensures
        match res {
            Ok(v) => serde_json_parse(text@) == Ok::<JsonValue, Seq<char>>(json_content(v)),
            Err(e) => serde_json_parse(text@) == Err::<JsonValue, Seq<char>>(e@),
        },
{
    match serde_json::from_str::<Value>(text) {
        Ok(v) => Ok(v),
        Err(e) => Err(e.to_string()),
    }
}

/// The pretty text of a document (what `pretty_text` returns).
pub open spec fn pretty_of(c: JsonValue) -> Seq<char> {
    match serde_json_pretty(c) {
        Ok(s) => s,
        Err(_) => Seq::<char>::empty(),
    }
}

/// `serde_json::to_string_pretty` on a `Value`. Its documentation says
/// serialisation fails only when a `Serialize` impl fails or a map has
/// non-string keys; neither can happen for a `Value`, so the contract states
/// that the call succeeds and names its text.
#[verifier::external_body]
pub(crate) fn pretty_text(v: &Value) -> (res: String)
    ensures
        match serde_json_pretty(json_content(*v)) {
            Ok(t) => t == res@,
            Err(_) => false,
        },
{
    serde_json::to_string_pretty(v).unwrap_or_default()
}

/// `serde_yaml::to_string`, with the error turned into its text.
#[verifier::external_body]
pub(crate) fn to_yaml(v: &Value) -> (res: Result<String, String>)
    ensures
        match res {
            Ok(s) => serde_yaml_text(json_content(*v)) == Ok::<Seq<char>, Seq<char>>(s@),
            Err(e) => serde_yaml_text(json_content(*v)) == Err::<Seq<char>, Seq<char>>(e@),
        },
{
    serde_yaml::to_string(v).map_err(|e| e.to_string())
}

/// The compact text of a value (`Display`, as `format!("{}", v)` writes it).
#[verifier::external_body]
pub(crate) fn to_compact(v: &Value) -> (res: String)
    ensures
        res@ == serde_json_compact(json_content(*v)),
{
    v.to_string()
}

/// `value[key]`: the field's value, or null.
#[verifier::external_body]
pub(crate) fn field<'a>(v: &'a Value, key: &str) -> (res: &'a Value)
    ensures
        json_content(*res) == field_or_null(json_content(*v), key@),
{
    &v[key]
}

/// `value.get(key)`: the field's value, if the value is an object with it.
#[verifier::external_body]
pub(crate) fn get_field<'a>(v: &'a Value, key: &str) -> (res: Option<&'a Value>)
    ensures
        match res {
            Some(r) => field_opt(json_content(*v), key@) == Some(json_content(*r)),
            None => field_opt(json_content(*v), key@) is None,
        },
{
    v.get(key)
}

/// `Value::as_str`.
#[verifier::external_body]
pub(crate) fn as_str(v: &Value) -> (res: Option<&str>)
    ensures
        match res {
            Some(s) => as_str_spec(json_content(*v)) == Some(s@),
            None => as_str_spec(json_content(*v)) is None,
        },
{
    v.as_str()
}

/// `Value::as_bool`.
#[verifier::external_body]
pub(crate) fn as_bool(v: &Value) -> (res: Option<bool>)
    ensures
        res == as_bool_spec(json_content(*v)),
{
    v.as_bool()
}

/// `Value::as_i64`.
#[verifier::external_body]
pub(crate) fn as_i64(v: &Value) -> (res: Option<i64>)
    ensures
        res == as_i64_spec(json_content(*v)),
{
    v.as_i64()
}

/// `Value::as_u64`.
#[verifier::external_body]
pub(crate) fn as_u64(v: &Value) -> (res: Option<u64>)
    ensures
        res == as_u64_spec(json_content(*v)),
{
    v.as_u64()
}

/// `Value::as_array`: the elements of an array.
#[verifier::external_body]
pub(crate) fn as_array(v: &Value) -> (res: Option<&Vec<Value>>)
    ensures
        match res {
            Some(items) => json_content(*v) matches JsonValue::Array(s) && items@.len() == s.len()
                && forall|i: int| 0 <= i < s.len() ==> json_content(#[trigger] items@[i]) == s[i],
            None => !(json_content(*v) is Array),
        },
{
    v.as_array()
}

/// `Value::is_null`.
#[verifier::external_body]
pub(crate) fn is_null(v: &Value) -> (res: bool)
    ensures
        res == (json_content(*v) is Null),
{
    v.is_null()
}

/// The order in which `serde_json` yields the keys of an object (its map
/// iterator); a function of the object alone.
pub uninterp spec fn serde_json_key_order(c: JsonValue) -> Seq<Seq<char>>;

/// The keys of entries, in order.
pub open spec fn entry_keys(es: Seq<(&String, &Value)>) -> Seq<Seq<char>> {
    es.map_values(|e: (&String, &Value)| e.0@)
}

/// `Value::as_object`, its entries collected in the order the map yields
/// them: one entry per key, each with the key's value; the order is named by
/// `serde_json_key_order`.
#[verifier::external_body]
pub(crate) fn object_entries<'a>(v: &'a Value) -> (res: Option<Vec<(&'a String, &'a Value)>>)
    ensures
        match res {
            Some(es) => json_content(*v) matches JsonValue::Object(m) && es@.len() == m.dom().len()
                && entry_keys(es@) == serde_json_key_order(json_content(*v)) && (forall|i: int|
                0 <= i < es@.len() ==> m.dom().contains((#[trigger] es@[i]).0@) && m[es@[i].0@]
                    == json_content(*es@[i].1)) && (forall|i: int, j: int|
                0 <= i < j < es@.len() ==> (#[trigger] es@[i]).0@ != (#[trigger] es@[j]).0@),
            None => !(json_content(*v) is Object),
        },
{
    v.as_object().map(|m| m.iter().collect())
}

/// The null value.
#[verifier::external_body]
pub(crate) fn null() -> (res: Value)
    ensures
        json_content(res) == JsonValue::Null,
{
    Value::Null
}

/// `Value::String`.
#[verifier::external_body]
pub(crate) fn string(s: String) -> (res: Value)
    ensures
        json_content(res) == JsonValue::Str(s@),
{
    Value::String(s)
}

/// `Value::Bool`.
#[verifier::external_body]
pub(crate) fn boolean(b: bool) -> (res: Value)
    ensures
        json_content(res) == JsonValue::Bool(b),
{
    Value::Bool(b)
}

/// `Value::from(i64)`.
#[verifier::external_body]
pub(crate) fn integer(n: i64) -> (res: Value)
    ensures
        json_content(res) == JsonValue::Int(n as int),
{
    Value::from(n)
}

/// `doc[key] = value`: sets a field of an object, turning null into an
/// object first (the crate panics on any other document, hence `requires`).
#[verifier::external_body]
pub(crate) fn set_field(doc: &mut Value, key: &str, value: Value)
    requires
        is_object_or_null(json_content(*old(doc))),
    ensures
        json_content(*final(doc)) == with_field(json_content(*old(doc)), key@, json_content(value)),
{
    doc[key] = value;
}

/// Whether a value is an object or null (`is_object() || is_null()`).
pub fn as_object_or_null(v: &Value) -> (b: bool)
    ensures
        b == is_object_or_null(json_content(*v)),
{
    is_null(v) || object_entries(v).is_some()
}

/// `Value::clone`.
#[verifier::external_body]
pub(crate) fn clone_value(v: &Value) -> (res: Value)
    ensures
        json_content(res) == json_content(*v),
{
    v.clone()
}

/// The string at `value[key]`, or `default` (`value[key].as_str().unwrap_or(default)`).
pub fn str_field_or<'a>(v: &'a Value, key: &str, default: &'a str) -> (res: &'a str)
    ensures
        res@ == match as_str_spec(field_or_null(json_content(*v), key@)) {
            Some(s) => s,
            None => default@,
        },
{
    match as_str(field(v, key)) {
        Some(s) => s,
        None => default,
    }
}

/// The string at `value[key]`, if it is one.
pub open spec fn str_field_spec(c: JsonValue, key: Seq<char>) -> Option<Seq<char>> {
    as_str_spec(field_or_null(c, key))
}

/// The string at `value[key]` or `default`.
pub open spec fn str_field_or_spec(c: JsonValue, key: Seq<char>, default: Seq<char>) -> Seq<char> {
    match str_field_spec(c, key) {
        Some(s) => s,
        None => default,
    }
}

/// The documents of a list of values.
pub open spec fn contents(vs: Seq<Value>) -> Seq<JsonValue> {
    vs.map_values(|v: Value| json_content(v))
}

/// Parses JSON text as a list of values with
/// `serde_json::from_str::<Vec<Value>>`, giving the error's `Display` text
/// on failure. Both outcomes are named by `serde_json_parse_list`.
#[verifier::external_body]
pub(crate) fn parse_json_list(text: &str) -> (res: Result<Vec<Value>, String>)
    ensures
        match res {
            Ok(items) => serde_json_parse_list(text@) == Ok::<Seq<JsonValue>, Seq<char>>(
                contents(items@),
            ),
            Err(e) => serde_json_parse_list(text@) == Err::<Seq<JsonValue>, Seq<char>>(e@),
        },
{
    serde_json::from_str::<Vec<Value>>(text).map_err(|e| e.to_string())
}

/// The elements of the array at `value[key]`, or none when it is not an
/// array.
pub open spec fn array_at(c: JsonValue, key: Seq<char>) -> Seq<JsonValue> {
    match field_or_null(c, key) {
        JsonValue::Array(s) => s,
        _ => Seq::empty(),
    }
}

/// Copies of the elements of the array at `value[key]`
/// (`value[key].as_array().cloned().unwrap_or_default()`).
pub fn array_items(v: &Value, key: &str) -> (items: Vec<Value>)
    ensures
        contents(items@) == array_at(json_content(*v), key@),
{
    let mut items: Vec<Value> = Vec::new();
    match as_array(field(v, key)) {
        Some(arr) => {
            let ghost s = array_at(json_content(*v), key@);
            let mut i: usize = 0;
            while i < arr.len()
                invariant
                    i <= arr.len(),
                    arr@.len() == s.len(),
                    forall|j: int| 0 <= j < s.len() ==> json_content(#[trigger] arr@[j]) == s[j],
                    contents(items@) == s.take(i as int),
                decreases arr.len() - i,
            {
                let ghost before = items@;
                let c = clone_value(&arr[i]);
                items.push(c);
                assert(items@ == before.push(c));
                assert(contents(items@) =~= contents(before).push(json_content(c)));
                assert(contents(items@) =~= s.take(i + 1));
                i = i + 1;
            }
            assert(s.take(s.len() as int) =~= s);
        },
        None => {
            assert(contents(items@) =~= Seq::<JsonValue>::empty());
        },
    }
    items
}

/// The text `format!("{:.1}", d)` writes for a number read as an `f64`
/// (`Value::as_f64`), when the document is a number.
pub uninterp spec fn float_tenths_text(c: JsonValue) -> Option<Seq<char>>;

/// `value.as_f64().map(|d| format!("{:.1}", d))`. `as_f64` gives a number
/// for every JSON number and nothing for any other document; the decimal
/// text of the float is named by `float_tenths_text` and not stated further.
#[verifier::external_body]
pub(crate) fn tenths_of(v: &Value) -> (res: Option<String>)
    ensures
        match res {
            Some(t) => float_tenths_text(json_content(*v)) == Some(t@) && (json_content(*v) is Int
                || json_content(*v) is Float),
            None => float_tenths_text(json_content(*v)) is None && !(json_content(*v) is Int
                || json_content(*v) is Float),
        },
{
    v.as_f64().map(|d| format!("{:.1}", d))
}

/// A number of milliseconds as shown: one decimal and the unit "ms".
pub open spec fn millis_text(c: JsonValue) -> Option<Seq<char>> {
    match float_tenths_text(c) {
        Some(t) => Some(t + "ms"@),
        None => None,
    }
}

/// The milliseconds text of a number (`{:.1}` followed by "ms"), or none
/// when the value is not a number.
pub fn millis_of(v: &Value) -> (res: Option<String>)
    ensures
        match res {
            Some(t) => millis_text(json_content(*v)) == Some(t@),
            None => millis_text(json_content(*v)) is None,
        },
{
    match tenths_of(v) {
        Some(t) => {
            let mut t = t;
            push_str(&mut t, "ms");
            Some(t)
        },
        None => None,
    }
}

/// Parses a JSON input text into a value (`serde_json::from_str`), or gives
/// the parser's error text.
pub fn parse_input(text: &str) -> (res: Result<Value, String>)
    ensures
        match res {
            Ok(v) => serde_json_parse(text@) == Ok::<JsonValue, Seq<char>>(json_content(v)),
            Err(e) => serde_json_parse(text@) == Err::<JsonValue, Seq<char>>(e@),
        },
{
    parse_json(text)
}

/// Parses a JSON input text that must be an array into its items, or gives
/// the parser's error text.
pub fn parse_items(text: &str) -> (res: Result<Vec<Value>, String>)
    ensures
        match res {
            Ok(items) => serde_json_parse_list(text@) == Ok::<Seq<JsonValue>, Seq<char>>(
                contents(items@),
            ),
            Err(e) => serde_json_parse_list(text@) == Err::<Seq<JsonValue>, Seq<char>>(e@),
        },
{
    parse_json_list(text)
}

} // verus!
