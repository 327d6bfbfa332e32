//! The HTTP client's own logic: the base URL, the URL of each request, the
//! authentication header and the error messages built from failed responses.
//! Sending requests is done by the caller.
use vstd::prelude::*;
use serde_json::Value;
use crate::json::{
    array_at, array_items, as_str, as_str_spec, contents, field, field_or_null, field_opt,
    get_field, json_content, serde_json_compact, str_field_or, to_compact, JsonValue,
};
use crate::strings::{push_str, push_u64, nat_decimal, str_eq};

verus! {

/// Connection settings of the client.
#[derive(Debug, Clone)]
pub struct OrionClient {
    base_url: String,
    api_key: Option<String>,
    api_key_header: Option<String>,
}

/// `s` with every trailing '/' removed (`str::trim_end_matches('/')`).
pub open spec fn trim_trailing_slashes(s: Seq<char>) -> Seq<char>
    decreases s.len(),
{
    if s.len() > 0 && s.last() == '/' {
        trim_trailing_slashes(s.drop_last())
    } else {
        s
    }
}

proof fn lemma_trim_step(s: Seq<char>, i: int)
    requires
        0 <= i < s.len(),
        s[i] == '/',
        forall|j: int| i < j < s.len() ==> s[j] == '/',
    ensures
        trim_trailing_slashes(s.take(i + 1)) == trim_trailing_slashes(s.take(i)),
{
    assert(s.take(i + 1).drop_last() =~= s.take(i));
}

proof fn lemma_trim_suffix(s: Seq<char>, i: int)
    requires
        0 <= i <= s.len(),
        forall|j: int| i <= j < s.len() ==> s[j] == '/',
    ensures
        trim_trailing_slashes(s) == trim_trailing_slashes(s.take(i)),
    decreases s.len() - i,
{
    if i == s.len() {
        assert(s.take(i) =~= s);
    } else {
        lemma_trim_suffix(s, i + 1);
        lemma_trim_step(s, i);
    }
}

/// The base URL never ends with '/', and trimming it again changes nothing.
pub proof fn law_trimmed_url_has_no_trailing_slash(s: Seq<char>)
    ensures
        !(trim_trailing_slashes(s).len() > 0 && trim_trailing_slashes(s).last() == '/'),
        trim_trailing_slashes(trim_trailing_slashes(s)) == trim_trailing_slashes(s),
    decreases s.len(),
{
    if s.len() > 0 && s.last() == '/' {
        law_trimmed_url_has_no_trailing_slash(s.drop_last());
    }
}

/// ASCII lower-casing of a character.
pub open spec fn ascii_lower(c: char) -> char {
    if 'A' <= c && c <= 'Z' {
        ((c as u32) + 32) as char
    } else {
        c
    }
}

/// `str::eq_ignore_ascii_case`: equal once ASCII letters are lower-cased.
pub open spec fn eq_ignore_ascii_case(a: Seq<char>, b: Seq<char>) -> bool {
    a.len() == b.len() && forall|i: int| 0 <= i < a.len() ==> ascii_lower(#[trigger] a[i]) == ascii_lower(b[i])
}

fn lower(c: char) -> (r: char)
    ensures
        r == ascii_lower(c),
{
    if 'A' <= c && c <= 'Z' {
        let u: u32 = (c as u32) + 32;
        assert(u == 'a' as u32 + ((c as u32) - ('A' as u32)));
        let r = if u == 97 { 'a' } else if u == 98 { 'b' } else if u == 99 { 'c' } else if u == 100 { 'd' }
            else if u == 101 { 'e' } else if u == 102 { 'f' } else if u == 103 { 'g' } else if u == 104 { 'h' }
            else if u == 105 { 'i' } else if u == 106 { 'j' } else if u == 107 { 'k' } else if u == 108 { 'l' }
            else if u == 109 { 'm' } else if u == 110 { 'n' } else if u == 111 { 'o' } else if u == 112 { 'p' }
            else if u == 113 { 'q' } else if u == 114 { 'r' } else if u == 115 { 's' } else if u == 116 { 't' }
            else if u == 117 { 'u' } else if u == 118 { 'v' } else if u == 119 { 'w' } else if u == 120 { 'x' }
            else if u == 121 { 'y' } else { 'z' };
        r
    } else {
        c
    }
}

/// Compares two strings ignoring ASCII case.
pub fn str_eq_ignore_ascii_case(a: &str, b: &str) -> (r: bool)
    ensures
        r == eq_ignore_ascii_case(a@, b@),
{
    let n = a.unicode_len();
    if n != b.unicode_len() {
        return false;
    }
    let mut i: usize = 0;
    while i < n
        invariant
            n == a@.len(),
            n == b@.len(),
            i <= n,
            forall|j: int| 0 <= j < i ==> ascii_lower(#[trigger] a@[j]) == ascii_lower(b@[j]),
        decreases n - i,
    {
        if lower(a.get_char(i)) != lower(b.get_char(i)) {
            return false;
        }
        i = i + 1;
    }
    true
}

/// The header a client with `api_key` and `header` sends: the named header
/// carrying the key, unless it is (any case of) "authorization", in which
/// case — and when no header is named — a bearer `Authorization` header.
pub open spec fn auth_header_spec(
    api_key: Option<Seq<char>>,
    header: Option<Seq<char>>,
) -> Option<(Seq<char>, Seq<char>)> {
    match api_key {
        None => None,
        Some(key) => match header {
            Some(h) if !eq_ignore_ascii_case(h, "authorization"@) => Some((h, key)),
            _ => Some(("Authorization"@, "Bearer "@ + key)),
        },
    }
}

/// The base URL that `new` keeps for `base_url`.
pub open spec fn normalized_base(s: Seq<char>) -> Seq<char> {
    trim_trailing_slashes(s)
}

impl OrionClient {
    /// The base URL this client sends requests to.
    pub closed spec fn base_url_spec(&self) -> Seq<char> {
        self.base_url@
    }

    /// The API key, if any.
    pub closed spec fn api_key_spec(&self) -> Option<Seq<char>> {
        match self.api_key {
            Some(k) => Some(k@),
            None => None,
        }
    }

    /// The header that carries the API key, if one is named.
    pub closed spec fn api_key_header_spec(&self) -> Option<Seq<char>> {
        match self.api_key_header {
            Some(h) => Some(h@),
            None => None,
        }
    }

    /// A client for the server at `base_url`, without trailing slashes.
    pub fn new(base_url: &str) -> (c: OrionClient)
        ensures
            c.base_url_spec() == normalized_base(base_url@),
            c.api_key_spec() is None,
            c.api_key_header_spec() is None,
    {
        let n = base_url.unicode_len();
        let mut end: usize = n;
        while end > 0 && base_url.get_char(end - 1) == '/'
            invariant
                n == base_url@.len(),
                end <= n,
                forall|j: int| end <= j < n ==> base_url@[j] == '/',
            decreases end,
        {
            end = end - 1;
        }
        proof {
            lemma_trim_suffix(base_url@, end as int);
            assert(!(end > 0 && base_url@.take(end as int).last() == '/') ==> trim_trailing_slashes(
                base_url@.take(end as int),
            ) == base_url@.take(end as int));
        }
        let trimmed = base_url.substring_char(0, end);
        assert(trimmed@ =~= base_url@.take(end as int));
        OrionClient { base_url: trimmed.to_owned(), api_key: None, api_key_header: None }
    }

    /// The base URL.
    pub fn base_url(&self) -> (s: &str)
        ensures
            s@ == self.base_url_spec(),
    {
        self.base_url.as_str()
    }

    /// The same client authenticating with `api_key`, sent in `header` when
    /// one is named.
    pub fn with_api_key(self, api_key: String, header: Option<String>) -> (c: OrionClient)
        ensures
            c.base_url_spec() == self.base_url_spec(),
            c.api_key_spec() == Some(api_key@),
            c.api_key_header_spec() == match header {
                Some(h) => Some(h@),
                None => None::<Seq<char>>,
            },
    {
        OrionClient { base_url: self.base_url, api_key: Some(api_key), api_key_header: header }
    }

    /// The full URL of an API path: the base URL followed by the path.
    pub fn url(&self, path: &str) -> (u: String)
        ensures
            u@ == self.base_url_spec() + path@,
    {
        let mut u = self.base_url.clone();
        push_str(&mut u, path);
        u
    }

    /// The authentication header (name, value) sent with every request.
    pub fn auth_header(&self) -> (h: Option<(String, String)>)
        ensures
            match auth_header_spec(self.api_key_spec(), self.api_key_header_spec()) {
                Some((name, value)) => h is Some && h->Some_0.0@ == name && h->Some_0.1@ == value,
                None => h is None,
            },
    {
        match &self.api_key {
            None => None,
            Some(key) => {
                match &self.api_key_header {
                    Some(h) => {
                        if !str_eq_ignore_ascii_case(h.as_str(), "authorization") {
                            return Some((h.clone(), key.clone()));
                        }
                    },
                    None => {},
                }
                let mut v = String::from_str("Bearer ");
                push_str(&mut v, key.as_str());
                Some((String::from_str("Authorization"), v))
            },
        }
    }
}

/// The hint added to an API error message for an error code.
pub open spec fn error_hint_spec(code: Seq<char>) -> Seq<char> {
    if code == "AUTH_FAILED"@ || code == "UNAUTHORIZED"@ {
        "\n  Hint: Check your --api-key or ORION_API_KEY environment variable"@
    } else if code == "NOT_FOUND"@ {
        "\n  Hint: Verify the resource ID exists with the corresponding 'list' command"@
    } else if code == "VALIDATION_ERROR"@ || code == "INVALID_INPUT"@ {
        "\n  Hint: Check the JSON structure. Use 'orion-cli workflows validate -f <file>' to validate"@
    } else if code == "CONFLICT"@ || code == "ALREADY_EXISTS"@ {
        "\n  Hint: A resource with this ID or name may already exist"@
    } else {
        Seq::<char>::empty()
    }
}

/// The hint for an API error code.
pub fn error_hint(code: &str) -> (h: &'static str)
    ensures
        h@ == error_hint_spec(code@),
{
    if str_eq(code, "AUTH_FAILED") || str_eq(code, "UNAUTHORIZED") {
        "\n  Hint: Check your --api-key or ORION_API_KEY environment variable"
    } else if str_eq(code, "NOT_FOUND") {
        "\n  Hint: Verify the resource ID exists with the corresponding 'list' command"
    } else if str_eq(code, "VALIDATION_ERROR") || str_eq(code, "INVALID_INPUT") {
        "\n  Hint: Check the JSON structure. Use 'orion-cli workflows validate -f <file>' to validate"
    } else if str_eq(code, "CONFLICT") || str_eq(code, "ALREADY_EXISTS") {
        "\n  Hint: A resource with this ID or name may already exist"
    } else {
        proof {
            reveal_strlit("");
        }
        ""
    }
}

/// The message when the server cannot be reached at `url`.
pub open spec fn connection_hint_spec(url: Seq<char>) -> Seq<char> {
    "Failed to connect to "@ + url
        + "\n  Hint: Is the server running? Check with 'orion-cli config show' or use '--server <url>'"@
}

/// Builds the message for a connection failure.
pub fn connection_hint(url: &str) -> (m: String)
    ensures
        m@ == connection_hint_spec(url@),
{
    let mut m = String::from_str("Failed to connect to ");
    push_str(&mut m, url);
    push_str(
        &mut m,
        "\n  Hint: Is the server running? Check with 'orion-cli config show' or use '--server <url>'",
    );
    m
}

/// A value shown in an error detail: a string as it is, anything else in
/// compact JSON.
pub open spec fn shown_value(v: JsonValue) -> Seq<char> {
    match v {
        JsonValue::Str(s) => s,
        _ => serde_json_compact(v),
    }
}

/// The string at `value[key]`, or the empty text.
pub open spec fn str_or_empty(c: JsonValue, key: Seq<char>) -> Seq<char> {
    match as_str_spec(field_or_null(c, key)) {
        Some(s) => s,
        None => Seq::empty(),
    }
}

/// One entry of a server error's `details`, on a line of its own: the field
/// path and message, then what was expected and what was got when the
/// entry says either.
pub open spec fn detail_text(d: JsonValue) -> Seq<char> {
    let path = str_or_empty(d, "path"@);
    let msg = str_or_empty(d, "message"@);
    let head = if path.len() == 0 {
        "\n  - "@ + msg
    } else {
        "\n  - "@ + path + ": "@ + msg
    };
    if field_opt(d, "expected"@) is Some || field_opt(d, "got"@) is Some {
        head + " (expected "@ + shown_value(field_or_null(d, "expected"@)) + ", got "@ + shown_value(
            field_or_null(d, "got"@),
        ) + seq![')']
    } else {
        head
    }
}

/// The lines of all entries of a server error's `details`, in order.
pub open spec fn details_text(ds: Seq<JsonValue>) -> Seq<char>
    decreases ds.len(),
{
    if ds.len() == 0 {
        Seq::empty()
    } else {
        details_text(ds.drop_last()) + detail_text(ds.last())
    }
}

/// The line naming the request id of a failed response, when the body
/// carries one.
pub open spec fn request_id_text(body: JsonValue) -> Seq<char> {
    match as_str_spec(field_or_null(body, "request_id"@)) {
        Some(id) => "\n  Request ID: "@ + id,
        None => Seq::empty(),
    }
}

/// The message for a failed response: when the body carries an `error`
/// object, the server's `[CODE] message`, then one line per entry of its
/// `details` (field path, message, expected and got), the body's
/// `request_id`, and a hint for the code; otherwise a note about the HTTP
/// status (`status` is its display text, such as "404 Not Found").
pub open spec fn api_error_spec(status_code: u16, status: Seq<char>, body: JsonValue) -> Seq<char> {
    match field_opt(body, "error"@) {
        Some(err) => {
            let code = match as_str_spec(field_or_null(err, "code"@)) {
                Some(c) => c,
                None => "UNKNOWN"@,
            };
            let msg = match as_str_spec(field_or_null(err, "message"@)) {
                Some(m) => m,
                None => "Unknown error"@,
            };
            seq!['['] + code + seq![']', ' '] + msg + details_text(array_at(err, "details"@))
                + request_id_text(body) + error_hint_spec(code)
        },
        None => if status_code == 401 {
            "Unauthorized ("@ + status
                + ")\n  Hint: Check your --api-key or ORION_API_KEY environment variable"@
        } else {
            "Request failed ("@ + status + seq![')']
        },
    }
}

/// Appends the text of a detail value.
fn push_shown(m: &mut String, v: &Value)
    ensures
        final(m)@ == old(m)@ + shown_value(json_content(*v)),
{
    match as_str(v) {
        Some(s) => push_str(m, s),
        None => {
            let c = to_compact(v);
            push_str(m, c.as_str());
        },
    }
}

/// Appends the line of one error detail.
fn push_detail(m: &mut String, d: &Value)
    ensures
        final(m)@ == old(m)@ + detail_text(json_content(*d)),
{
    proof {
        reveal_strlit("\n  - ");
        reveal_strlit(": ");
        reveal_strlit(" (expected ");
        reveal_strlit(", got ");
        reveal_strlit("");
    }
    let ghost start = m@;
    let path = str_field_or(d, "path", "");
    let msg = str_field_or(d, "message", "");
    push_str(m, "\n  - ");
    if path.unicode_len() != 0 {
        push_str(m, path);
        push_str(m, ": ");
    }
    push_str(m, msg);
    assert(m@ =~= start + (if path@.len() == 0 {
        "\n  - "@ + msg@
    } else {
        "\n  - "@ + path@ + ": "@ + msg@
    }));
    if get_field(d, "expected").is_some() || get_field(d, "got").is_some() {
        let ghost mid = m@;
        push_str(m, " (expected ");
        push_shown(m, field(d, "expected"));
        push_str(m, ", got ");
        push_shown(m, field(d, "got"));
        m.push(')');
        assert(m@ =~= mid + " (expected "@ + shown_value(field_or_null(json_content(*d), "expected"@))
            + ", got "@ + shown_value(field_or_null(json_content(*d), "got"@)) + seq![')']);
    }
}

/// Builds the error message for a response whose status is not a success.
pub fn api_error_message(status_code: u16, status: &str, body: &Value) -> (m: String)
    ensures
        m@ == api_error_spec(status_code, status@, json_content(*body)),
{
    match get_field(body, "error") {
        Some(err) => {
            let code = match as_str(field(err, "code")) {
                Some(c) => c,
                None => "UNKNOWN",
            };
            let msg = match as_str(field(err, "message")) {
                Some(m) => m,
                None => "Unknown error",
            };
            let hint = error_hint(code);
            let mut m = String::new();
            m.push('[');
            push_str(&mut m, code);
            m.push(']');
            m.push(' ');
            push_str(&mut m, msg);
            let ghost head = m@;
            let details = array_items(err, "details");
            let ghost ds = array_at(json_content(*err), "details"@);
            let mut i: usize = 0;
            while i < details.len()
                invariant
                    i <= details@.len(),
                    contents(details@) == ds,
                    m@ == head + details_text(ds.take(i as int)),
                decreases details@.len() - i,
            {
                push_detail(&mut m, &details[i]);
                proof {
                    assert(ds.take(i + 1).drop_last() =~= ds.take(i as int));
                    assert(json_content(details@[i as int]) == ds[i as int]);
                }
                i = i + 1;
            }
            assert(ds.take(i as int) =~= ds);
            let ghost with_details = m@;
            if let Some(id) = as_str(field(body, "request_id")) {
                push_str(&mut m, "\n  Request ID: ");
                push_str(&mut m, id);
                proof {
                    reveal_strlit("\n  Request ID: ");
                }
                assert(m@ =~= with_details + request_id_text(json_content(*body)));
            } else {
                assert(m@ =~= with_details + request_id_text(json_content(*body)));
            }
            push_str(&mut m, hint);
            assert(m@ =~= seq!['['] + code@ + seq![']', ' '] + msg@ + details_text(ds)
                + request_id_text(json_content(*body)) + hint@);
            m
        },
        None => {
            if status_code == 401 {
                let mut m = String::from_str("Unauthorized (");
                push_str(&mut m, status);
                push_str(
                    &mut m,
                    ")\n  Hint: Check your --api-key or ORION_API_KEY environment variable",
                );
                m
            } else {
                let mut m = String::from_str("Request failed (");
                push_str(&mut m, status);
                m.push(')');
                assert(m@ =~= "Request failed ("@ + status@ + seq![')']);
                m
            }
        },
    }
}

/// The message when a text request fails: the status and the body.
pub open spec fn text_error_spec(status: Seq<char>, body: Seq<char>) -> Seq<char> {
    "Request failed ("@ + status + seq![')', ':', ' '] + body
}

/// Builds the message for a failed plain-text request.
pub fn text_error_message(status: &str, body: &str) -> (m: String)
    ensures
        m@ == text_error_spec(status@, body@),
{
    let mut m = String::from_str("Request failed (");
    push_str(&mut m, status);
    m.push(')');
    m.push(':');
    m.push(' ');
    push_str(&mut m, body);
    assert(m@ =~= text_error_spec(status@, body@));
    m
}

/// Whether an HTTP status code is a success (2xx).
pub open spec fn is_success(code: u16) -> bool {
    200 <= code && code < 300
}

/// Checks a response status: success passes; otherwise the error message
/// built from the status and the response body (null when the body is not
/// JSON).
pub fn check_status(status_code: u16, status: &str, body: &Value) -> (res: Result<(), String>)
    ensures
        is_success(status_code) ==> res is Ok,
        !is_success(status_code) ==> res is Err && res->Err_0@ == api_error_spec(status_code, status@, json_content(*body)),
{
    if 200 <= status_code && status_code < 300 {
        Ok(())
    } else {
        Err(api_error_message(status_code, status, body))
    }
}

/// Checks the status of a plain-text response: success passes; otherwise
/// the message carries the status and the body text.
pub fn check_text_status(status_code: u16, status: &str, body: &str) -> (res: Result<(), String>)
    ensures
        is_success(status_code) ==> res is Ok,
        !is_success(status_code) ==> res is Err && res->Err_0@ == text_error_spec(status@, body@),
{
    if 200 <= status_code && status_code < 300 {
        Ok(())
    } else {
        Err(text_error_message(status, body))
    }
}

/// Authentication: without an API key no header is sent. With one, a
/// custom header name other than "authorization" (in any case) carries the
/// key as it is; otherwise the "Authorization" header carries "Bearer "
/// followed by the key.
pub proof fn law_auth_header(api_key: Option<Seq<char>>, header: Option<Seq<char>>)
    ensures
        api_key is None <==> auth_header_spec(api_key, header) is None,
        api_key matches Some(k) ==> (auth_header_spec(api_key, header) matches Some((_name, v))
            && v.len() >= k.len() && v.subrange(v.len() - k.len(), v.len() as int) == k),
        api_key matches Some(k) ==> (header matches Some(h) ==> (!eq_ignore_ascii_case(h, "authorization"@)
            ==> auth_header_spec(api_key, header) == Some((h, k)))),
        api_key matches Some(k) ==> ((header is None || eq_ignore_ascii_case(header->0, "authorization"@))
            ==> auth_header_spec(api_key, header) == Some(("Authorization"@, "Bearer "@ + k))),
{
    if let Some(k) = api_key {
        if let Some((_name, v)) = auth_header_spec(api_key, header) {
            assert(v.subrange(v.len() - k.len(), v.len() as int) =~= k);
        }
    }
}

} // verus!
