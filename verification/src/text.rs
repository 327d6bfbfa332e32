//! Text helpers used by every command: truncation of table cells, durations,
//! query strings, secret masking, confirmation answers and status colouring.
use vstd::prelude::*;
use vstd::utf8::*;
use vstd::string::StringSliceAdditionalSpecFns;
use colored::Colorize;
use crate::strings::{int_decimal, push_i64, push_str, str_eq};

verus! {

broadcast use {
    vstd::string::group_string_axioms,
    vstd::utf8::encode_utf8_valid_utf8,
    vstd::utf8::encode_utf8_decode_utf8,
};

// ---------------------------------------------------------------------------
// Truncation and masking (byte-oriented, like slicing a `str`)
// ---------------------------------------------------------------------------

/// The text `truncate` produces: unchanged when it has at most `max`
/// characters, otherwise its first `max - 3` characters followed by "...",
/// so that it has exactly `max` characters.
pub open spec fn truncated(s: Seq<char>, max: int) -> Seq<char> {
    if s.len() > max {
        s.subrange(0, max - 3) + seq!['.', '.', '.']
    } else {
        s
    }
}

/// Whether `truncate` can cut a text at `max` characters: it fits, or `max`
/// leaves room for the "..." (a smaller `max` underflows).
pub open spec fn truncatable(s: Seq<char>, max: int) -> bool {
    s.len() > max ==> max >= 3
}

/// Truncates `s` to `max` characters, appending "..." when it was cut.
pub fn truncate(s: &str, max: usize) -> (res: String)
    requires
        truncatable(s@, max as int),
    ensures
        res@ == truncated(s@, max as int),
{
    let n = s.unicode_len();
    if n > max {
        let head = s.substring_char(0, max - 3);
        let mut res = head.to_owned();
        push_str(&mut res, "...");
        proof {
            reveal_strlit("...");
            assert(res@ =~= truncated(s@, max as int));
        }
        res
    } else {
        s.to_owned()
    }
}

/// Whether `truncate(s, max)` can be called (see `truncatable`).
pub fn can_truncate(s: &str, max: usize) -> (b: bool)
    ensures
        b == truncatable(s@, max as int),
{
    s.unicode_len() <= max || max >= 3
}

/// A truncated text never has more than `max` characters (for `max` of at
/// least 3), and a text that fits is left as it is; a text that does not
/// fit keeps its first `max - 3` characters and ends in "...", exactly
/// `max` characters in all.
pub proof fn law_truncated_fits(s: Seq<char>, max: int)
    requires
        max >= 3,
    ensures
        truncated(s, max).len() <= max,
        s.len() <= max ==> truncated(s, max) == s,
        s.len() > max ==> truncated(s, max).subrange(0, max - 3) == s.subrange(0, max - 3),
        s.len() > max ==> truncated(s, max).len() == max && truncated(s, max).subrange(max - 3, max)
            == "..."@,
{
    reveal_strlit("...");
    if s.len() > max {
        assert(truncated(s, max).subrange(0, max - 3) =~= s.subrange(0, max - 3));
        assert(truncated(s, max).subrange(max - 3, max) =~= "..."@);
    }
}

/// The masked form of a secret: "****" alone when it has at most four bytes,
/// otherwise "****" followed by its last four bytes.
pub open spec fn masked(s: Seq<char>) -> Seq<char> {
    let b = encode_utf8(s);
    if b.len() <= 4 {
        seq!['*', '*', '*', '*']
    } else {
        seq!['*', '*', '*', '*'] + decode_utf8(b.subrange(b.len() - 4, b.len() as int))
    }
}

/// A masked secret shows nothing but its last four bytes: two secrets of at
/// most four bytes mask alike, and so do two longer secrets that end in the
/// same four bytes.
pub proof fn law_mask_shows_only_last_four(s1: Seq<char>, s2: Seq<char>)
    requires
        (encode_utf8(s1).len() <= 4 && encode_utf8(s2).len() <= 4) || (encode_utf8(s1).len() > 4
            && encode_utf8(s2).len() > 4 && encode_utf8(s1).subrange(
            encode_utf8(s1).len() - 4,
            encode_utf8(s1).len() as int,
        ) == encode_utf8(s2).subrange(encode_utf8(s2).len() - 4, encode_utf8(s2).len() as int)),
    ensures
        masked(s1) == masked(s2),
{
}

/// A masked secret is "****" followed by exactly the secret's last four
/// bytes (nothing more when the secret has at most four bytes): the text
/// after the stars encodes to the secret's final four bytes.
pub proof fn law_mask_keeps_last_four_bytes(s: Seq<char>)
    requires
        maskable(s),
    ensures
        masked(s).len() >= 4,
        masked(s).subrange(0, 4) == "****"@,
        encode_utf8(s).len() <= 4 ==> masked(s).len() == 4,
        encode_utf8(s).len() > 4 ==> encode_utf8(masked(s).subrange(4, masked(s).len() as int))
            == encode_utf8(s).subrange(encode_utf8(s).len() - 4, encode_utf8(s).len() as int),
{
    reveal_strlit("****");
    let b = encode_utf8(s);
    if b.len() > 4 {
        vstd::utf8::encode_utf8_valid_utf8(s);
        vstd::utf8::valid_utf8_split(b, b.len() - 4);
        let tail = b.subrange(b.len() - 4, b.len() as int);
        vstd::utf8::decode_utf8_encode_utf8(tail);
        assert(masked(s).subrange(4, masked(s).len() as int) =~= decode_utf8(tail));
    }
    assert(masked(s).subrange(0, 4) =~= "****"@);
}

/// Whether a secret can be masked: at most four bytes long, or its last
/// four bytes start at a character boundary.
pub open spec fn maskable(s: Seq<char>) -> bool {
    encode_utf8(s).len() > 4 ==> is_char_boundary(encode_utf8(s), encode_utf8(s).len() - 4)
}

/// Masks a secret for display, keeping only its last four bytes.
pub fn mask_secret(s: &str) -> (res: String)
    requires
        maskable(s@),
    ensures
        res@ == masked(s@),
{
    let mut res = String::new();
    res.push('*');
    res.push('*');
    res.push('*');
    res.push('*');
    let n = s.as_bytes().len();
    if n > 4 {
        let (_head, tail) = s.split_at(n - 4);
        push_str(&mut res, tail);
        proof {
            let b = s.spec_bytes();
            assert(tail.spec_bytes() =~= b.subrange(b.len() - 4, b.len() as int));
            assert(decode_utf8(encode_utf8(tail@)) == tail@);
        }
    }
    assert(res@ =~= masked(s@));
    res
}

/// Whether `mask_secret(s)` can be called (see `maskable`).
pub fn can_mask(s: &str) -> (b: bool)
    ensures
        b == maskable(s@),
{
    let n = s.as_bytes().len();
    if n > 4 {
        s.is_char_boundary(n - 4)
    } else {
        true
    }
}

// ---------------------------------------------------------------------------
// Durations
// ---------------------------------------------------------------------------

/// Human-readable duration: seconds below a minute, then "Xm Ys", "Xh Ym",
/// and "Xd Yh" from one day on.
pub open spec fn duration_text(s: int) -> Seq<char> {
    if s < 60 {
        int_decimal(s) + seq!['s']
    } else if s < 3600 {
        int_decimal(s / 60) + seq!['m', ' '] + int_decimal(s % 60) + seq!['s']
    } else if s < 86400 {
        int_decimal(s / 3600) + seq!['h', ' '] + int_decimal((s % 3600) / 60) + seq!['m']
    } else {
        int_decimal(s / 86400) + seq!['d', ' '] + int_decimal((s % 86400) / 3600) + seq!['h']
    }
}

/// Below a minute a duration is shown in whole seconds: `s` seconds read
/// "<s>s".
pub proof fn law_duration_seconds(s: int)
    requires
        0 <= s < 60,
    ensures
        duration_text(s) == int_decimal(s) + "s"@,
{
    assert(int_decimal(s) + seq!['s'] =~= int_decimal(s) + "s"@) by {
        reveal_strlit("s");
    }
}

/// From a minute to an hour a duration reads "<m>m <x>s" for `m` whole
/// minutes and `x` remaining seconds.
pub proof fn law_duration_minutes(s: int, m: int, x: int)
    requires
        1 <= m < 60,
        0 <= x < 60,
        s == m * 60 + x,
    ensures
        duration_text(s) == int_decimal(m) + "m "@ + int_decimal(x) + "s"@,
{
    vstd::arithmetic::div_mod::lemma_fundamental_div_mod_converse(s, 60, m, x);
    reveal_strlit("m ");
    reveal_strlit("s");
    assert(int_decimal(m) + seq!['m', ' '] + int_decimal(x) + seq!['s'] =~= int_decimal(m) + "m "@
        + int_decimal(x) + "s"@);
}

/// From an hour to a day a duration reads "<h>h <m>m" for `h` whole hours
/// and `m` whole minutes of the rest; the remaining seconds are dropped.
pub proof fn law_duration_hours(s: int, h: int, m: int, x: int)
    requires
        1 <= h < 24,
        0 <= m < 60,
        0 <= x < 60,
        s == h * 3600 + m * 60 + x,
    ensures
        duration_text(s) == int_decimal(h) + "h "@ + int_decimal(m) + "m"@,
{
    vstd::arithmetic::div_mod::lemma_fundamental_div_mod_converse(s, 3600, h, m * 60 + x);
    vstd::arithmetic::div_mod::lemma_fundamental_div_mod_converse(m * 60 + x, 60, m, x);
    reveal_strlit("h ");
    reveal_strlit("m");
    assert(int_decimal(h) + seq!['h', ' '] + int_decimal(m) + seq!['m'] =~= int_decimal(h) + "h "@
        + int_decimal(m) + "m"@);
}

/// From a day on a duration reads "<d>d <h>h" for `d` whole days and `h`
/// whole hours of the rest (so `h` is below 24); minutes and seconds are
/// dropped.
pub proof fn law_duration_days(s: int, d: int, h: int, r: int)
    requires
        d >= 1,
        0 <= h < 24,
        0 <= r < 3600,
        s == d * 86400 + h * 3600 + r,
    ensures
        duration_text(s) == int_decimal(d) + "d "@ + int_decimal(h) + "h"@,
{
    assert(s >= 86400) by (nonlinear_arith)
        requires
            d >= 1,
            0 <= h,
            0 <= r,
            s == d * 86400 + h * 3600 + r,
    ;
    vstd::arithmetic::div_mod::lemma_fundamental_div_mod_converse(s, 86400, d, h * 3600 + r);
    vstd::arithmetic::div_mod::lemma_fundamental_div_mod_converse(h * 3600 + r, 3600, h, r);
    reveal_strlit("d ");
    reveal_strlit("h");
    assert(int_decimal(d) + seq!['d', ' '] + int_decimal(h) + seq!['h'] =~= int_decimal(d) + "d "@
        + int_decimal(h) + "h"@);
}

/// Formats a number of seconds as a human-readable duration.
pub fn format_duration(seconds: i64) -> (res: String)
    ensures
        res@ == duration_text(seconds as int),
{
    let mut res = String::new();
    if seconds < 60 {
        push_i64(&mut res, seconds);
        res.push('s');
    } else if seconds < 3600 {
        push_i64(&mut res, seconds / 60);
        res.push('m');
        res.push(' ');
        push_i64(&mut res, seconds % 60);
        res.push('s');
    } else if seconds < 86400 {
        push_i64(&mut res, seconds / 3600);
        res.push('h');
        res.push(' ');
        push_i64(&mut res, (seconds % 3600) / 60);
        res.push('m');
    } else {
        push_i64(&mut res, seconds / 86400);
        res.push('d');
        res.push(' ');
        push_i64(&mut res, (seconds % 86400) / 3600);
        res.push('h');
    }
    assert(res@ =~= duration_text(seconds as int));
    res
}

// ---------------------------------------------------------------------------
// Query strings
// ---------------------------------------------------------------------------

/// The `key=value` parts of a query, one for each pair that has a value, in
/// order.
pub open spec fn query_parts(ps: Seq<(&str, Option<String>)>) -> Seq<Seq<char>>
    decreases ps.len(),
{
    if ps.len() == 0 {
        seq![]
    } else {
        let prev = query_parts(ps.drop_last());
        match ps.last().1 {
            Some(v) => prev.push(ps.last().0@ + seq!['='] + v@),
            None => prev,
        }
    }
}

/// The parts joined by `sep`.
pub open spec fn join_with(parts: Seq<Seq<char>>, sep: char) -> Seq<char>
    decreases parts.len(),
{
    if parts.len() == 0 {
        seq![]
    } else if parts.len() == 1 {
        parts[0]
    } else {
        join_with(parts.drop_last(), sep) + seq![sep] + parts.last()
    }
}

/// The query string for `ps`: empty when no pair has a value, otherwise "?"
/// followed by the parts joined with "&".
pub open spec fn query_string(ps: Seq<(&str, Option<String>)>) -> Seq<char> {
    let parts = query_parts(ps);
    if parts.len() == 0 {
        seq![]
    } else {
        seq!['?'] + join_with(parts, '&')
    }
}

/// Builds a URL query string from key-value pairs, skipping `None` values.
pub fn build_query_string(params: &[(&str, Option<String>)]) -> (res: String)
    ensures
        res@ == query_string(params@),
{
    let mut joined = String::new();
    let mut count: usize = 0;
    let mut i: usize = 0;
    while i < params.len()
        invariant
            i <= params@.len(),
            count == query_parts(params@.take(i as int)).len(),
            joined@ == join_with(query_parts(params@.take(i as int)), '&'),
            count <= i,
        decreases params@.len() - i,
    {
        let ghost before = params@.take(i as int);
        assert(params@.take(i + 1).drop_last() =~= before);
        let (key, value) = &params[i];
        match value {
            Some(v) => {
                let ghost prev = query_parts(before);
                let ghost part = key@ + seq!['='] + v@;
                assert(query_parts(params@.take(i + 1)) == prev.push(part));
                assert(prev.push(part).drop_last() =~= prev);
                if count > 0 {
                    joined.push('&');
                }
                push_str(&mut joined, key);
                joined.push('=');
                push_str(&mut joined, v.as_str());
                count = count + 1;
                assert(joined@ =~= join_with(prev.push(part), '&'));
            },
            None => {
                assert(query_parts(params@.take(i + 1)) == query_parts(before));
            },
        }
        i = i + 1;
    }
    assert(params@.take(params@.len() as int) =~= params@);
    if count == 0 {
        String::new()
    } else {
        let mut res = String::new();
        res.push('?');
        push_str(&mut res, joined.as_str());
        res
    }
}

/// A query parameter as text: its key and its value, if any.
pub open spec fn pair_view(p: (&str, Option<String>)) -> (Seq<char>, Option<Seq<char>>) {
    (
        p.0@,
        match p.1 {
            Some(v) => Some(v@),
            None => None,
        },
    )
}

/// The `key=value` parts of query parameters given as text.
pub open spec fn parts_of(ps: Seq<(Seq<char>, Option<Seq<char>>)>) -> Seq<Seq<char>>
    decreases ps.len(),
{
    if ps.len() == 0 {
        seq![]
    } else {
        let prev = parts_of(ps.drop_last());
        match ps.last().1 {
            Some(v) => prev.push(ps.last().0 + seq!['='] + v),
            None => prev,
        }
    }
}

/// The query string for parameters given as text: empty when none has a
/// value, otherwise "?" and the `key=value` parts joined with "&".
pub open spec fn query_text(ps: Seq<(Seq<char>, Option<Seq<char>>)>) -> Seq<char> {
    let parts = parts_of(ps);
    if parts.len() == 0 {
        seq![]
    } else {
        seq!['?'] + join_with(parts, '&')
    }
}

proof fn lemma_parts_view(ps: Seq<(&str, Option<String>)>)
    ensures
        query_parts(ps) == parts_of(ps.map_values(|p: (&str, Option<String>)| pair_view(p))),
    decreases ps.len(),
{
    if ps.len() > 0 {
        lemma_parts_view(ps.drop_last());
        assert(ps.drop_last().map_values(|p: (&str, Option<String>)| pair_view(p)) =~= ps.map_values(
            |p: (&str, Option<String>)| pair_view(p),
        ).drop_last());
    }
}

/// The query string of parameters depends only on their text.
pub proof fn lemma_query_view(ps: Seq<(&str, Option<String>)>)
    ensures
        query_string(ps) == query_text(ps.map_values(|p: (&str, Option<String>)| pair_view(p))),
{
    lemma_parts_view(ps);
}

proof fn lemma_parts_insert_absent(ps: Seq<(&str, Option<String>)>, j: int, key: &str)
    requires
        0 <= j <= ps.len(),
    ensures
        query_parts(ps.insert(j, (key, None::<String>))) == query_parts(ps),
    decreases ps.len(),
{
    let q = ps.insert(j, (key, None::<String>));
    if j == ps.len() {
        assert(q.drop_last() =~= ps);
    } else {
        lemma_parts_insert_absent(ps.drop_last(), j, key);
        assert(q.drop_last() =~= ps.drop_last().insert(j, (key, None::<String>)));
        assert(q.last() == ps.last());
    }
}

proof fn lemma_parts_all_absent(ps: Seq<(&str, Option<String>)>)
    requires
        forall|i: int| 0 <= i < ps.len() ==> (#[trigger] ps[i]).1 is None,
    ensures
        query_parts(ps).len() == 0,
    decreases ps.len(),
{
    if ps.len() > 0 {
        lemma_parts_all_absent(ps.drop_last());
    }
}

/// Parameters without a value leave the query string as it is: inserting
/// one anywhere changes nothing, and a list holding only such parameters
/// (or none at all) gives the empty string.
pub proof fn law_absent_params_ignored(ps: Seq<(&str, Option<String>)>, j: int, key: &str)
    requires
        0 <= j <= ps.len(),
    ensures
        query_string(ps.insert(j, (key, None::<String>))) == query_string(ps),
        (forall|i: int| 0 <= i < ps.len() ==> (#[trigger] ps[i]).1 is None) ==> query_string(ps)
            == Seq::<char>::empty(),
{
    lemma_parts_insert_absent(ps, j, key);
    if forall|i: int| 0 <= i < ps.len() ==> (#[trigger] ps[i]).1 is None {
        lemma_parts_all_absent(ps);
    }
}

/// The `key=value` part a query parameter contributes: one part when it
/// has a value, none otherwise.
pub open spec fn present_part(key: Seq<char>, value: Option<Seq<char>>) -> Seq<Seq<char>> {
    match value {
        Some(v) => seq![key + seq!['='] + v],
        None => Seq::empty(),
    }
}

/// The text of a query parameter's number, when it has one.
pub open spec fn number_value(n: Option<i64>) -> Option<Seq<char>> {
    match n {
        Some(v) => Some(int_decimal(v as int)),
        None => None,
    }
}

/// The text of a query parameter's string, when it has one.
pub open spec fn string_value(s: Option<String>) -> Option<Seq<char>> {
    match s {
        Some(v) => Some(v@),
        None => None,
    }
}

/// Whether `a` ends with `b`.
pub open spec fn ends_with(a: Seq<char>, b: Seq<char>) -> bool {
    b.len() <= a.len() && a.subrange(a.len() - b.len(), a.len() as int) == b
}

/// Adding a parameter adds its part, if any, after the others.
pub proof fn lemma_parts_push(ps: Seq<(Seq<char>, Option<Seq<char>>)>, p: (Seq<char>, Option<Seq<char>>))
    ensures
        parts_of(ps.push(p)) == parts_of(ps) + present_part(p.0, p.1),
{
    assert(ps.push(p).drop_last() =~= ps);
    assert(parts_of(ps.push(p)) =~= parts_of(ps) + present_part(p.0, p.1));
}

/// A query string ends with its last part.
pub proof fn lemma_query_ends_with_last(ps: Seq<(Seq<char>, Option<Seq<char>>)>)
    requires
        parts_of(ps).len() > 0,
    ensures
        ends_with(query_text(ps), parts_of(ps).last()),
{
    let parts = parts_of(ps);
    let q = query_text(ps);
    let x = parts.last();
    if parts.len() == 1 {
        assert(q =~= seq!['?'] + x);
    } else {
        assert(q =~= seq!['?'] + join_with(parts.drop_last(), '&') + seq!['&'] + x);
    }
    assert(q.subrange(q.len() - x.len(), q.len() as int) =~= x);
}

/// The decimal text of an optional number.
pub open spec fn opt_decimal(n: Option<i64>) -> Option<Seq<char>> {
    match n {
        Some(v) => Some(int_decimal(v as int)),
        None => None,
    }
}

/// The text of an optional string.
pub open spec fn opt_text(s: Option<String>) -> Option<Seq<char>> {
    match s {
        Some(v) => Some(v@),
        None => None,
    }
}

// ---------------------------------------------------------------------------
// Confirmation answers
// ---------------------------------------------------------------------------

/// Unicode White_Space, the set `char::is_whitespace` and `str::trim` use.
pub open spec fn is_white_space(c: char) -> bool {
    ||| ('\u{9}' <= c && c <= '\u{d}')
    ||| c == ' '
    ||| c == '\u{85}'
    ||| c == '\u{a0}'
    ||| c == '\u{1680}'
    ||| ('\u{2000}' <= c && c <= '\u{200a}')
    ||| c == '\u{2028}'
    ||| c == '\u{2029}'
    ||| c == '\u{202f}'
    ||| c == '\u{205f}'
    ||| c == '\u{3000}'
}

fn white_space(c: char) -> (r: bool)
    ensures
        r == is_white_space(c),
{
    ('\u{9}' <= c && c <= '\u{d}') || c == ' ' || c == '\u{85}' || c == '\u{a0}' || c
        == '\u{1680}' || ('\u{2000}' <= c && c <= '\u{200a}') || c == '\u{2028}' || c
        == '\u{2029}' || c == '\u{202f}' || c == '\u{205f}' || c == '\u{3000}'
}

/// An answer confirms when, once surrounding white space is trimmed, it is
/// exactly "y" or "Y".
pub open spec fn confirms(s: Seq<char>) -> bool {
    exists|k: int|
        0 <= k < s.len() && (s[k] == 'y' || s[k] == 'Y') && (forall|j: int|
            0 <= j < s.len() && j != k ==> is_white_space(#[trigger] s[j]))
}

/// Whether a typed answer to a `[y/N]` prompt confirms.
pub fn is_confirmed(input: &str) -> (r: bool)
    ensures
        r == confirms(input@),
{
    let n = input.unicode_len();
    let mut found: usize = n;
    let mut i: usize = 0;
    while i < n
        invariant
            n == input@.len(),
            i <= n,
            found == n || (found < i && (input@[found as int] == 'y' || input@[found as int]
                == 'Y')),
            forall|j: int| 0 <= j < i && j != found ==> is_white_space(#[trigger] input@[j]),
        decreases n - i,
    {
        let c = input.get_char(i);
        if white_space(c) {
        } else if (c == 'y' || c == 'Y') && found == n {
            found = i;
        } else {
            proof {
                assert forall|k: int|
                    0 <= k < input@.len() && (input@[k] == 'y' || input@[k] == 'Y') implies !(
                forall|j: int| 0 <= j < input@.len() && j != k ==> is_white_space(
                    #[trigger] input@[j],
                )) by {
                    if k != i as int {
                        assert(!is_white_space(input@[i as int]));
                    } else {
                        assert(found < n);
                        assert(!is_white_space(input@[found as int]));
                    }
                }
            }
            return false;
        }
        i = i + 1;
    }
    if found == n {
        proof {
            assert forall|k: int|
                0 <= k < input@.len() && (input@[k] == 'y' || input@[k] == 'Y') implies !(forall|
                j: int,
            | 0 <= j < input@.len() && j != k ==> is_white_space(#[trigger] input@[j])) by {
                assert(is_white_space(input@[k]));
            }
        }
        false
    } else {
        true
    }
}

// ---------------------------------------------------------------------------
// Colours
// ---------------------------------------------------------------------------

/// The terminal colours and styles the commands use.
#[derive(Clone, Copy, PartialEq, Eq, Debug)]
pub enum Tone {
    Green,
    Yellow,
    Blue,
    Red,
    Cyan,
    Dimmed,
    Bold,
    GreenBold,
    YellowBold,
    RedBold,
    CyanBold,
}

/// The SGR parameter the `colored` crate writes for each tone.
pub open spec fn tone_code(t: Tone) -> Seq<char> {
    match t {
        Tone::Red => seq!['3', '1'],
        Tone::Green => seq!['3', '2'],
        Tone::Yellow => seq!['3', '3'],
        Tone::Blue => seq!['3', '4'],
        Tone::Cyan => seq!['3', '6'],
        Tone::Dimmed => seq!['2'],
        Tone::Bold => seq!['1'],
        Tone::GreenBold => seq!['1', ';', '3', '2'],
        Tone::YellowBold => seq!['1', ';', '3', '3'],
        Tone::RedBold => seq!['1', ';', '3', '1'],
        Tone::CyanBold => seq!['1', ';', '3', '6'],
    }
}

/// The reset sequence "\x1b[0m".
pub open spec fn ansi_reset() -> Seq<char> {
    seq!['\u{1b}', '[', '0', 'm']
}

/// The escape sequence that starts text in a tone: "\x1b[" + code + "m".
pub open spec fn tone_prefix(tone: Tone) -> Seq<char> {
    seq!['\u{1b}', '['] + tone_code(tone) + seq!['m']
}

/// `text` with `prefix` inserted after every reset sequence it holds, so
/// that the tone resumes after an inner reset.
pub open spec fn escape_resets(text: Seq<char>, prefix: Seq<char>) -> Seq<char>
    decreases text.len(),
{
    if text.len() == 0 {
        text
    } else if text.len() >= 4 && text.subrange(0, 4) == ansi_reset() {
        ansi_reset() + prefix + escape_resets(text.subrange(4, text.len() as int), prefix)
    } else {
        seq![text[0]] + escape_resets(text.subrange(1, text.len() as int), prefix)
    }
}

/// What painting `text` in `tone` may give: the text unchanged (colouring is
/// off for this process), or the tone's escape sequence, the text with the
/// tone resumed after each reset sequence it holds, and a reset.
pub open spec fn painted(text: Seq<char>, tone: Tone, out: Seq<char>) -> bool {
    ||| out == text
    ||| out == tone_prefix(tone) + escape_resets(text, tone_prefix(tone)) + ansi_reset()
}

/// Renders `text` in `tone` through the `colored` crate (`Colorize::green`,
/// `yellow`, `blue`, `red`, `cyan`, `dimmed`, `bold` or a colour followed by
/// `bold`, then `to_string`). With colours on, the crate's `Display` writes
/// the style sequence, the text with the style re-inserted after every
/// inner reset sequence, and a reset; with colours off, the text alone.
/// Whether colours are on depends on the environment, the terminal and the
/// process-wide override, so the contract states what holds of either
/// outcome.
#[verifier::external_body]
pub(crate) fn paint(text: &str, tone: Tone) -> (res: String)
    ensures
        painted(text@, tone, res@),
{
    match tone {
        Tone::Green => text.green().to_string(),
        Tone::Yellow => text.yellow().to_string(),
        Tone::Blue => text.blue().to_string(),
        Tone::Red => text.red().to_string(),
        Tone::Cyan => text.cyan().to_string(),
        Tone::Dimmed => text.dimmed().to_string(),
        Tone::Bold => text.bold().to_string(),
        Tone::GreenBold => text.green().bold().to_string(),
        Tone::YellowBold => text.yellow().bold().to_string(),
        Tone::RedBold => text.red().bold().to_string(),
        Tone::CyanBold => text.bold().cyan().to_string(),
    }
}

/// The tone a lifecycle status is shown in, if any.
pub open spec fn status_tone(s: Seq<char>) -> Option<Tone> {
    if s == "active"@ || s == "completed"@ || s == "ok"@ {
        Some(Tone::Green)
    } else if s == "pending"@ {
        Some(Tone::Yellow)
    } else if s == "draft"@ || s == "running"@ {
        Some(Tone::Blue)
    } else if s == "failed"@ {
        Some(Tone::Red)
    } else if s == "archived"@ {
        Some(Tone::Dimmed)
    } else {
        None
    }
}

/// Chooses the tone for a lifecycle status (draft/active/archived and the
/// trace states).
pub fn choose_status_tone(status: &str) -> (t: Option<Tone>)
    ensures
        t == status_tone(status@),
{
    if str_eq(status, "active") || str_eq(status, "completed") || str_eq(status, "ok") {
        Some(Tone::Green)
    } else if str_eq(status, "pending") {
        Some(Tone::Yellow)
    } else if str_eq(status, "draft") || str_eq(status, "running") {
        Some(Tone::Blue)
    } else if str_eq(status, "failed") {
        Some(Tone::Red)
    } else if str_eq(status, "archived") {
        Some(Tone::Dimmed)
    } else {
        None
    }
}

/// Paints `text` in `tone`, or returns it unchanged when there is no tone.
pub fn paint_opt(text: &str, tone: Option<Tone>) -> (res: String)
    ensures
        match tone {
            Some(t) => painted(text@, t, res@),
            None => res@ == text@,
        },
{
    match tone {
        Some(t) => paint(text, t),
        None => text.to_owned(),
    }
}

/// Colorizes a lifecycle status (draft/active/archived, pending/running/
/// completed/failed, ok).
pub fn colorize_status(status: &str) -> (res: String)
    ensures
        match status_tone(status@) {
            Some(t) => painted(status@, t, res@),
            None => res@ == status@,
        },
{
    let tone = choose_status_tone(status);
    paint_opt(status, tone)
}

/// The tone a job status is shown in, if any.
pub open spec fn job_status_tone(s: Seq<char>) -> Option<Tone> {
    if s == "pending"@ {
        Some(Tone::Yellow)
    } else if s == "running"@ {
        Some(Tone::Blue)
    } else if s == "completed"@ {
        Some(Tone::Green)
    } else if s == "failed"@ {
        Some(Tone::Red)
    } else {
        None
    }
}

/// Chooses the tone for a job status.
pub fn choose_job_status_tone(status: &str) -> (t: Option<Tone>)
    ensures
        t == job_status_tone(status@),
{
    if str_eq(status, "pending") {
        Some(Tone::Yellow)
    } else if str_eq(status, "running") {
        Some(Tone::Blue)
    } else if str_eq(status, "completed") {
        Some(Tone::Green)
    } else if str_eq(status, "failed") {
        Some(Tone::Red)
    } else {
        None
    }
}

/// Colorizes a job status (pending, running, completed, failed).
pub fn colorize_job_status(status: &str) -> (res: String)
    ensures
        match job_status_tone(status@) {
            Some(t) => painted(status@, t, res@),
            None => res@ == status@,
        },
{
    let tone = choose_job_status_tone(status);
    paint_opt(status, tone)
}

/// The colours of lifecycle and run statuses: "active", "completed" and
/// "ok" are green, "pending" yellow, "draft" and "running" blue, "failed"
/// red and "archived" dimmed; any other status is left uncoloured. Job
/// statuses use the same colours for pending, running, completed and
/// failed, and leave every other status uncoloured.
pub proof fn law_status_colours(s: Seq<char>)
    ensures
        status_tone(s) == Some(Tone::Green) <==> (s == "active"@ || s == "completed"@ || s == "ok"@),
        status_tone(s) == Some(Tone::Yellow) <==> s == "pending"@,
        status_tone(s) == Some(Tone::Blue) <==> (s == "draft"@ || s == "running"@),
        status_tone(s) == Some(Tone::Red) <==> s == "failed"@,
        status_tone(s) == Some(Tone::Dimmed) <==> s == "archived"@,
        status_tone(s) is None <==> !(s == "active"@ || s == "completed"@ || s == "ok"@ || s == "pending"@
            || s == "draft"@ || s == "running"@ || s == "failed"@ || s == "archived"@),
        job_status_tone(s) == Some(Tone::Yellow) <==> s == "pending"@,
        job_status_tone(s) == Some(Tone::Blue) <==> s == "running"@,
        job_status_tone(s) == Some(Tone::Green) <==> s == "completed"@,
        job_status_tone(s) == Some(Tone::Red) <==> s == "failed"@,
        job_status_tone(s) is None <==> !(s == "pending"@ || s == "running"@ || s == "completed"@
            || s == "failed"@),
{
    reveal_strlit("active");
    reveal_strlit("completed");
    reveal_strlit("ok");
    reveal_strlit("pending");
    reveal_strlit("draft");
    reveal_strlit("running");
    reveal_strlit("failed");
    reveal_strlit("archived");
    assert("active"@.len() != "completed"@.len());
    assert("active"@.len() != "ok"@.len());
    assert("active"@.len() != "pending"@.len());
    assert("active"@.len() != "draft"@.len());
    assert("active"@.len() != "running"@.len());
    assert("active"@[0] != "failed"@[0]);
    assert("active"@.len() != "archived"@.len());
    assert("completed"@.len() != "ok"@.len());
    assert("completed"@.len() != "pending"@.len());
    assert("completed"@.len() != "draft"@.len());
    assert("completed"@.len() != "running"@.len());
    assert("completed"@.len() != "failed"@.len());
    assert("completed"@.len() != "archived"@.len());
    assert("ok"@.len() != "pending"@.len());
    assert("ok"@.len() != "draft"@.len());
    assert("ok"@.len() != "running"@.len());
    assert("ok"@.len() != "failed"@.len());
    assert("ok"@.len() != "archived"@.len());
    assert("pending"@.len() != "draft"@.len());
    assert("pending"@[0] != "running"@[0]);
    assert("pending"@.len() != "failed"@.len());
    assert("pending"@.len() != "archived"@.len());
    assert("draft"@.len() != "running"@.len());
    assert("draft"@.len() != "failed"@.len());
    assert("draft"@.len() != "archived"@.len());
    assert("running"@.len() != "failed"@.len());
    assert("running"@.len() != "archived"@.len());
    assert("failed"@.len() != "archived"@.len());
}

} // verus!
