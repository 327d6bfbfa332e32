//! Comparing a local definitions file with the definitions on the server
//! (`workflows diff`, `rules diff`). Items are matched by name; a local item
//! is new, modified or unchanged, and a server item that no local item names
//! is deleted.
use vstd::prelude::*;
use serde_json::Value;
use crate::json::{
    array_at, array_items, contents, as_str, as_str_spec, field, field_opt, field_or_null, get_field, json_content, serde_json_compact,
    to_compact, JsonValue,
};
use crate::strings::{nat_decimal, push_str, push_u64, str_eq, u64_to_string};
use crate::text::{paint, painted, Tone};

verus! {

/// How an item differs between the local file and the server.
#[derive(Clone, Copy, PartialEq, Eq, Debug)]
pub enum DiffMark {
    New,
    Modified,
    Unchanged,
    Deleted,
}

/// One line of a diff: the mark and the item's name.
pub struct DiffEntry {
    pub mark: DiffMark,
    pub name: String,
}

/// The result of a diff: its entries in order (local items first, then
/// deleted server items) and the count of each mark.
pub struct DiffReport {
    pub entries: Vec<DiffEntry>,
    pub new_count: usize,
    pub modified_count: usize,
    pub deleted_count: usize,
    pub unchanged_count: usize,
}

/// The name of an item, if it has a string `name`.
pub open spec fn name_of(v: JsonValue) -> Option<Seq<char>> {
    as_str_spec(field_or_null(v, "name"@))
}

/// The index of the last server item with this name (the one a name lookup
/// finds, later items replacing earlier ones).
pub open spec fn last_named(server: Seq<JsonValue>, name: Seq<char>) -> Option<int>
    decreases server.len(),
{
    if server.len() == 0 {
        None
    } else if name_of(server.last()) == Some(name) {
        Some(server.len() - 1)
    } else {
        last_named(server.drop_last(), name)
    }
}

/// Whether some local item has this name.
pub open spec fn has_named(local: Seq<JsonValue>, name: Seq<char>) -> bool {
    exists|i: int| 0 <= i < local.len() && name_of(#[trigger] local[i]) == Some(name)
}

/// The compact JSON text of a local field, if present.
pub open spec fn local_text(l: JsonValue, key: Seq<char>) -> Option<Seq<char>> {
    match field_opt(l, key) {
        Some(v) => Some(serde_json_compact(v)),
        None => None,
    }
}

/// The string a server field holds, if it is one.
pub open spec fn server_text(s: JsonValue, key: Seq<char>) -> Option<Seq<char>> {
    match field_opt(s, key) {
        Some(v) => as_str_spec(v),
        None => None,
    }
}

/// A local item differs from its server counterpart when the compact text
/// of its `condition` or `tasks` differs from the server's stored
/// `condition_json` or `tasks_json` text (absence counting as a value).
pub open spec fn differs(l: JsonValue, s: JsonValue) -> bool {
    local_text(l, "condition"@) != server_text(s, "condition_json"@) || local_text(l, "tasks"@)
        != server_text(s, "tasks_json"@)
}

/// The name a local item is listed under.
pub open spec fn local_label(l: JsonValue) -> Seq<char> {
    match name_of(l) {
        Some(n) => n,
        None => "(unnamed)"@,
    }
}

/// The name a server item is listed and looked up under.
pub open spec fn server_label(s: JsonValue) -> Seq<char> {
    match name_of(s) {
        Some(n) => n,
        None => Seq::<char>::empty(),
    }
}

/// The mark of a local item.
pub open spec fn local_mark(l: JsonValue, server: Seq<JsonValue>) -> DiffMark {
    match last_named(server, local_label(l)) {
        Some(j) => if differs(l, server[j]) {
            DiffMark::Modified
        } else {
            DiffMark::Unchanged
        },
        None => DiffMark::New,
    }
}

/// The entries for the local items, in file order.
pub open spec fn local_entries(local: Seq<JsonValue>, server: Seq<JsonValue>) -> Seq<(DiffMark, Seq<char>)>
    decreases local.len(),
{
    if local.len() == 0 {
        Seq::empty()
    } else {
        local_entries(local.drop_last(), server).push(
            (local_mark(local.last(), server), local_label(local.last())),
        )
    }
}

/// The entries for the server items that no local item names, in server
/// order.
pub open spec fn deleted_entries(local: Seq<JsonValue>, server: Seq<JsonValue>) -> Seq<(DiffMark, Seq<char>)>
    decreases server.len(),
{
    if server.len() == 0 {
        Seq::empty()
    } else {
        let prev = deleted_entries(local, server.drop_last());
        if has_named(local, server_label(server.last())) {
            prev
        } else {
            prev.push((DiffMark::Deleted, server_label(server.last())))
        }
    }
}

/// All entries of the diff.
pub open spec fn diff_entries(local: Seq<JsonValue>, server: Seq<JsonValue>) -> Seq<(DiffMark, Seq<char>)> {
    local_entries(local, server) + deleted_entries(local, server)
}

/// The number of entries with a mark.
pub open spec fn count_mark(es: Seq<(DiffMark, Seq<char>)>, m: DiffMark) -> nat
    decreases es.len(),
{
    if es.len() == 0 {
        0
    } else {
        count_mark(es.drop_last(), m) + if es.last().0 == m {
            1nat
        } else {
            0nat
        }
    }
}

/// The entries of a report as (mark, name) pairs.
pub open spec fn entries_view(es: Seq<DiffEntry>) -> Seq<(DiffMark, Seq<char>)> {
    es.map_values(|e: DiffEntry| (e.mark, e.name@))
}

fn label_of(v: &Value, default: &'static str) -> (r: String)
    ensures
        r@ == match name_of(json_content(*v)) {
            Some(n) => n,
            None => default@,
        },
{
    match as_str(field(v, "name")) {
        Some(n) => n.to_owned(),
        None => default.to_owned(),
    }
}

fn named(v: &Value, name: &str) -> (b: bool)
    ensures
        b == (name_of(json_content(*v)) == Some(name@)),
{
    match as_str(field(v, "name")) {
        Some(n) => str_eq(n, name),
        None => false,
    }
}

/// Finds the last server item with this name.
fn find_last_named(server: &[Value], name: &str) -> (r: Option<usize>)
    ensures
        match r {
            Some(j) => j < server@.len() && last_named(contents(server@), name@) == Some(j as int),
            None => last_named(contents(server@), name@) is None,
        },
{
    let mut k: usize = server.len();
    assert(server@.take(k as int) =~= server@);
    while k > 0
        invariant
            k <= server.len(),
            last_named(contents(server@), name@) == last_named(contents(server@.take(k as int)), name@),
        decreases k,
    {
        let ghost prefix = contents(server@.take(k as int));
        assert(prefix.last() == json_content(server@[k - 1]));
        assert(prefix.drop_last() =~= contents(server@.take(k - 1)));
        if named(&server[k - 1], name) {
            return Some(k - 1);
        }
        k = k - 1;
    }
    assert(contents(server@.take(0)) =~= Seq::<JsonValue>::empty());
    None
}

/// Whether some local item has this name.
fn any_named(local: &[Value], name: &str) -> (b: bool)
    ensures
        b == has_named(contents(local@), name@),
{
    let mut i: usize = 0;
    while i < local.len()
        invariant
            i <= local.len(),
            forall|j: int| 0 <= j < i ==> name_of(#[trigger] contents(local@)[j]) != Some(name@),
        decreases local.len() - i,
    {
        if named(&local[i], name) {
            assert(contents(local@)[i as int] == json_content(local@[i as int]));
            return true;
        }
        i = i + 1;
    }
    false
}

fn opt_text_eq(a: &Option<String>, b: Option<&str>) -> (r: bool)
    ensures
        r == (match a {
            Some(s) => Some(s@),
            None => None::<Seq<char>>,
        } == match b {
            Some(s) => Some(s@),
            None => None::<Seq<char>>,
        }),
{
    match (a, b) {
        (Some(x), Some(y)) => str_eq(x.as_str(), y),
        (None, None) => true,
        _ => false,
    }
}

fn local_field_text(l: &Value, key: &str) -> (r: Option<String>)
    ensures
        match r {
            Some(s) => local_text(json_content(*l), key@) == Some(s@),
            None => local_text(json_content(*l), key@) is None,
        },
{
    match get_field(l, key) {
        Some(v) => Some(to_compact(v)),
        None => None,
    }
}

fn server_field_text<'a>(s: &'a Value, key: &str) -> (r: Option<&'a str>)
    ensures
        match r {
            Some(t) => server_text(json_content(*s), key@) == Some(t@),
            None => server_text(json_content(*s), key@) is None,
        },
{
    match get_field(s, key) {
        Some(v) => as_str(v),
        None => None,
    }
}

/// Whether a local item differs from a server item.
pub fn item_differs(l: &Value, s: &Value) -> (b: bool)
    ensures
        b == differs(json_content(*l), json_content(*s)),
{
    let lc = local_field_text(l, "condition");
    let sc = server_field_text(s, "condition_json");
    let lt = local_field_text(l, "tasks");
    let st = server_field_text(s, "tasks_json");
    !opt_text_eq(&lc, sc) || !opt_text_eq(&lt, st)
}

fn add_entry(entries: &mut Vec<DiffEntry>, mark: DiffMark, name: String)
    ensures
        entries_view(final(entries)@) == entries_view(old(entries)@).push((mark, name@)),
{
    let ghost before = entries@;
    entries.push(DiffEntry { mark, name });
    assert(entries_view(entries@) =~= entries_view(before).push((mark, name@)));
}

fn bump(c: usize, limit: usize) -> (r: usize)
    requires
        c < limit,
    ensures
        r == c + 1,
{
    c + 1
}

proof fn lemma_count_push(es: Seq<(DiffMark, Seq<char>)>, e: (DiffMark, Seq<char>), m: DiffMark)
    ensures
        count_mark(es.push(e), m) == count_mark(es, m) + if e.0 == m {
            1nat
        } else {
            0nat
        },
{
    assert(es.push(e).drop_last() =~= es);
}

proof fn lemma_count_le(es: Seq<(DiffMark, Seq<char>)>, m: DiffMark)
    ensures
        count_mark(es, m) <= es.len(),
    decreases es.len(),
{
    if es.len() > 0 {
        lemma_count_le(es.drop_last(), m);
    }
}

proof fn lemma_local_len(local: Seq<JsonValue>, server: Seq<JsonValue>)
    ensures
        local_entries(local, server).len() == local.len(),
    decreases local.len(),
{
    if local.len() > 0 {
        lemma_local_len(local.drop_last(), server);
    }
}

proof fn lemma_deleted_len(local: Seq<JsonValue>, server: Seq<JsonValue>)
    ensures
        deleted_entries(local, server).len() <= server.len(),
    decreases server.len(),
{
    if server.len() > 0 {
        lemma_deleted_len(local, server.drop_last());
    }
}

/// Compares local items with the server's items.
pub fn diff_items(local: &[Value], server: &[Value]) -> (r: DiffReport)
    ensures
        entries_view(r.entries@) == diff_entries(contents(local@), contents(server@)),
        r.new_count == count_mark(entries_view(r.entries@), DiffMark::New),
        r.modified_count == count_mark(entries_view(r.entries@), DiffMark::Modified),
        r.unchanged_count == count_mark(entries_view(r.entries@), DiffMark::Unchanged),
        r.deleted_count == count_mark(entries_view(r.entries@), DiffMark::Deleted),
{
    let ghost lc = contents(local@);
    let ghost sc = contents(server@);
    let mut entries: Vec<DiffEntry> = Vec::new();
    let mut new_count: usize = 0;
    let mut modified_count: usize = 0;
    let mut unchanged_count: usize = 0;
    let mut deleted_count: usize = 0;
    let mut i: usize = 0;
    while i < local.len()
        invariant
            i <= local.len(),
            lc == contents(local@),
            sc == contents(server@),
            entries_view(entries@) == local_entries(lc.take(i as int), sc),
            new_count == count_mark(entries_view(entries@), DiffMark::New),
            modified_count == count_mark(entries_view(entries@), DiffMark::Modified),
            unchanged_count == count_mark(entries_view(entries@), DiffMark::Unchanged),
            deleted_count == count_mark(entries_view(entries@), DiffMark::Deleted),
            deleted_count == 0,
        decreases local.len() - i,
    {
        proof {
            assert(lc.take(i + 1).drop_last() =~= lc.take(i as int));
            assert(lc.take(i + 1).last() == json_content(local@[i as int]));
            lemma_local_len(lc.take(i as int), sc);
            lemma_count_le(entries_view(entries@), DiffMark::New);
            lemma_count_le(entries_view(entries@), DiffMark::Modified);
            lemma_count_le(entries_view(entries@), DiffMark::Unchanged);
        }
        let l = &local[i];
        let name = label_of(l, "(unnamed)");
        let ghost before = entries_view(entries@);
        let mark = match find_last_named(server, name.as_str()) {
            Some(j) => {
                assert(sc[j as int] == json_content(server@[j as int]));
                if item_differs(l, &server[j]) {
                    modified_count = bump(modified_count, local.len());
                    DiffMark::Modified
                } else {
                    unchanged_count = bump(unchanged_count, local.len());
                    DiffMark::Unchanged
                }
            },
            None => {
                new_count = bump(new_count, local.len());
                DiffMark::New
            },
        };
        add_entry(&mut entries, mark, name);
        proof {
            lemma_count_push(before, (mark, local_label(lc[i as int])), DiffMark::New);
            lemma_count_push(before, (mark, local_label(lc[i as int])), DiffMark::Modified);
            lemma_count_push(before, (mark, local_label(lc[i as int])), DiffMark::Unchanged);
            lemma_count_push(before, (mark, local_label(lc[i as int])), DiffMark::Deleted);
        }
        i = i + 1;
    }
    assert(lc.take(local.len() as int) =~= lc);
    let ghost locals = entries_view(entries@);
    let mut k: usize = 0;
    while k < server.len()
        invariant
            k <= server.len(),
            lc == contents(local@),
            sc == contents(server@),
            locals == local_entries(lc, sc),
            entries_view(entries@) == locals + deleted_entries(lc, sc.take(k as int)),
            new_count == count_mark(entries_view(entries@), DiffMark::New),
            modified_count == count_mark(entries_view(entries@), DiffMark::Modified),
            unchanged_count == count_mark(entries_view(entries@), DiffMark::Unchanged),
            deleted_count == count_mark(entries_view(entries@), DiffMark::Deleted),
            deleted_count <= k,
        decreases server.len() - k,
    {
        proof {
            assert(sc.take(k + 1).drop_last() =~= sc.take(k as int));
            assert(sc.take(k + 1).last() == json_content(server@[k as int]));
            lemma_count_le(entries_view(entries@), DiffMark::Deleted);
        }
        let s = &server[k];
        let name = label_of(s, "");
        let ghost before = entries_view(entries@);
        proof {
            reveal_strlit("");
            let t = sc.take(k + 1);
            assert(name@ == server_label(t.last()));
            assert(deleted_entries(lc, t) == if has_named(lc, server_label(t.last())) {
                deleted_entries(lc, t.drop_last())
            } else {
                deleted_entries(lc, t.drop_last()).push((DiffMark::Deleted, server_label(t.last())))
            });
        }
        if !any_named(local, name.as_str()) {
            deleted_count = deleted_count + 1;
            add_entry(&mut entries, DiffMark::Deleted, name);
            proof {
                let e = (DiffMark::Deleted, server_label(sc[k as int]));
                lemma_count_push(before, e, DiffMark::New);
                lemma_count_push(before, e, DiffMark::Modified);
                lemma_count_push(before, e, DiffMark::Unchanged);
                lemma_count_push(before, e, DiffMark::Deleted);
                assert(locals + deleted_entries(lc, sc.take(k + 1)) =~= before.push(e));
            }
        } else {
            assert(deleted_entries(lc, sc.take(k + 1)) == deleted_entries(lc, sc.take(k as int)));
        }
        k = k + 1;
    }
    assert(sc.take(server.len() as int) =~= sc);
    DiffReport { entries, new_count, modified_count, deleted_count, unchanged_count }
}

proof fn lemma_count_concat(a: Seq<(DiffMark, Seq<char>)>, b: Seq<(DiffMark, Seq<char>)>, m: DiffMark)
    ensures
        count_mark(a + b, m) == count_mark(a, m) + count_mark(b, m),
    decreases b.len(),
{
    if b.len() == 0 {
        assert(a + b =~= a);
    } else {
        lemma_count_concat(a, b.drop_last(), m);
        assert((a + b).drop_last() =~= a + b.drop_last());
    }
}

proof fn lemma_local_marks(local: Seq<JsonValue>, server: Seq<JsonValue>)
    ensures
        count_mark(local_entries(local, server), DiffMark::New) + count_mark(
            local_entries(local, server),
            DiffMark::Modified,
        ) + count_mark(local_entries(local, server), DiffMark::Unchanged) == local.len(),
        count_mark(local_entries(local, server), DiffMark::Deleted) == 0,
        server.len() == 0 ==> count_mark(local_entries(local, server), DiffMark::New)
            == local.len(),
    decreases local.len(),
{
    if local.len() > 0 {
        lemma_local_marks(local.drop_last(), server);
        let es = local_entries(local, server);
        assert(es.drop_last() =~= local_entries(local.drop_last(), server));
    }
}

proof fn lemma_deleted_marks(local: Seq<JsonValue>, server: Seq<JsonValue>)
    ensures
        count_mark(deleted_entries(local, server), DiffMark::Deleted) == deleted_entries(
            local,
            server,
        ).len(),
        count_mark(deleted_entries(local, server), DiffMark::New) == 0,
        count_mark(deleted_entries(local, server), DiffMark::Modified) == 0,
        count_mark(deleted_entries(local, server), DiffMark::Unchanged) == 0,
        deleted_entries(local, server).len() <= server.len(),
        local.len() == 0 ==> deleted_entries(local, server).len() == server.len(),
    decreases server.len(),
{
    if server.len() > 0 {
        lemma_deleted_marks(local, server.drop_last());
        let prev = deleted_entries(local, server.drop_last());
        if !has_named(local, server_label(server.last())) {
            assert(deleted_entries(local, server).drop_last() =~= prev);
        }
    }
}

/// Every local item is listed exactly once, as new, modified or unchanged;
/// every other entry marks a deleted server item, of which there are at
/// most as many as server items.
pub proof fn law_diff_accounts_for_items(local: Seq<JsonValue>, server: Seq<JsonValue>)
    ensures
        count_mark(diff_entries(local, server), DiffMark::New) + count_mark(
            diff_entries(local, server),
            DiffMark::Modified,
        ) + count_mark(diff_entries(local, server), DiffMark::Unchanged) == local.len(),
        count_mark(diff_entries(local, server), DiffMark::Deleted) <= server.len(),
        diff_entries(local, server).len() == local.len() + count_mark(
            diff_entries(local, server),
            DiffMark::Deleted,
        ),
{
    let a = local_entries(local, server);
    let b = deleted_entries(local, server);
    lemma_local_marks(local, server);
    lemma_deleted_marks(local, server);
    lemma_local_len(local, server);
    lemma_count_concat(a, b, DiffMark::New);
    lemma_count_concat(a, b, DiffMark::Modified);
    lemma_count_concat(a, b, DiffMark::Unchanged);
    lemma_count_concat(a, b, DiffMark::Deleted);
}

/// Against an empty server every local item is new and nothing is deleted.
pub proof fn law_diff_empty_server(local: Seq<JsonValue>)
    ensures
        count_mark(diff_entries(local, Seq::empty()), DiffMark::New) == local.len(),
        count_mark(diff_entries(local, Seq::empty()), DiffMark::Deleted) == 0,
{
    let server = Seq::<JsonValue>::empty();
    law_diff_accounts_for_items(local, server);
    lemma_local_marks(local, server);
    lemma_deleted_marks(local, server);
    lemma_count_concat(local_entries(local, server), deleted_entries(local, server), DiffMark::New);
}

/// With no local items, every server item is listed as deleted.
pub proof fn law_diff_empty_local(server: Seq<JsonValue>)
    ensures
        count_mark(diff_entries(Seq::empty(), server), DiffMark::Deleted) == server.len(),
        diff_entries(Seq::empty(), server).len() == server.len(),
{
    let local = Seq::<JsonValue>::empty();
    law_diff_accounts_for_items(local, server);
    lemma_deleted_marks(local, server);
    lemma_local_len(local, server);
    lemma_count_concat(local_entries(local, server), deleted_entries(local, server), DiffMark::Deleted);
    lemma_local_marks(local, server);
}

/// The symbol a mark is shown with.
pub open spec fn mark_symbol(m: DiffMark) -> Seq<char> {
    match m {
        DiffMark::New => "+"@,
        DiffMark::Modified => "~"@,
        DiffMark::Unchanged => "="@,
        DiffMark::Deleted => "-"@,
    }
}

/// The tone a mark is shown in.
pub open spec fn mark_tone(m: DiffMark) -> Tone {
    match m {
        DiffMark::New => Tone::GreenBold,
        DiffMark::Modified => Tone::YellowBold,
        DiffMark::Unchanged => Tone::Dimmed,
        DiffMark::Deleted => Tone::RedBold,
    }
}

/// Whether `line` shows an entry: two spaces, the painted symbol, a space
/// and the name.
pub open spec fn shows_entry(line: Seq<char>, m: DiffMark, name: Seq<char>) -> bool {
    exists|p: Seq<char>| painted(mark_symbol(m), mark_tone(m), p) && line == "  "@ + p + " "@ + name
}

fn symbol(m: DiffMark) -> (s: &'static str)
    ensures
        s@ == mark_symbol(m),
{
    match m {
        DiffMark::New => "+",
        DiffMark::Modified => "~",
        DiffMark::Unchanged => "=",
        DiffMark::Deleted => "-",
    }
}

fn tone(m: DiffMark) -> (t: Tone)
    ensures
        t == mark_tone(m),
{
    match m {
        DiffMark::New => Tone::GreenBold,
        DiffMark::Modified => Tone::YellowBold,
        DiffMark::Unchanged => Tone::Dimmed,
        DiffMark::Deleted => Tone::RedBold,
    }
}

/// The line printed for one entry.
pub fn entry_line(e: &DiffEntry) -> (line: String)
    ensures
        shows_entry(line@, e.mark, e.name@),
{
    let p = paint(symbol(e.mark), tone(e.mark));
    let mut line = String::from_str("  ");
    push_str(&mut line, p.as_str());
    line.push(' ');
    push_str(&mut line, e.name.as_str());
    proof {
        reveal_strlit("  ");
        reveal_strlit(" ");
        assert(line@ =~= "  "@ + p@ + " "@ + e.name@);
    }
    line
}

/// Whether `line` is the closing summary of a diff with these counts.
pub open spec fn shows_summary(line: Seq<char>, new: nat, modified: nat, deleted: nat, unchanged: nat) -> bool {
    exists|a: Seq<char>, b: Seq<char>, c: Seq<char>|
        painted(nat_decimal(new), Tone::Green, a) && painted(nat_decimal(modified), Tone::Yellow, b)
            && painted(nat_decimal(deleted), Tone::Red, c) && line == "  "@ + a + " new, "@ + b
            + " modified, "@ + c + " deleted, "@ + nat_decimal(unchanged) + " unchanged"@
}

/// The closing summary line of a diff.
pub fn summary_line(r: &DiffReport) -> (line: String)
    ensures
        shows_summary(
            line@,
            r.new_count as nat,
            r.modified_count as nat,
            r.deleted_count as nat,
            r.unchanged_count as nat,
        ),
{
    let a = paint(u64_to_string(r.new_count as u64).as_str(), Tone::Green);
    let b = paint(u64_to_string(r.modified_count as u64).as_str(), Tone::Yellow);
    let c = paint(u64_to_string(r.deleted_count as u64).as_str(), Tone::Red);
    let mut line = String::from_str("  ");
    push_str(&mut line, a.as_str());
    push_str(&mut line, " new, ");
    push_str(&mut line, b.as_str());
    push_str(&mut line, " modified, ");
    push_str(&mut line, c.as_str());
    push_str(&mut line, " deleted, ");
    push_u64(&mut line, r.unchanged_count as u64);
    push_str(&mut line, " unchanged");
    proof {
        reveal_strlit("  ");
        assert(line@ =~= "  "@ + a@ + " new, "@ + b@ + " modified, "@ + c@ + " deleted, "@
            + nat_decimal(r.unchanged_count as nat) + " unchanged"@);
    }
    line
}

/// Compares local items with the items of an export response
/// (`response["data"]`, no items when it is not an array).
pub fn diff_against_export(local: &[Value], export: &Value) -> (r: DiffReport)
    ensures
        entries_view(r.entries@) == diff_entries(contents(local@), array_at(json_content(*export), "data"@)),
        r.new_count == count_mark(entries_view(r.entries@), DiffMark::New),
        r.modified_count == count_mark(entries_view(r.entries@), DiffMark::Modified),
        r.unchanged_count == count_mark(entries_view(r.entries@), DiffMark::Unchanged),
        r.deleted_count == count_mark(entries_view(r.entries@), DiffMark::Deleted),
{
    let server = array_items(export, "data");
    diff_items(local, server.as_slice())
}

/// The server items indexed by name, as a map from each name to one item:
/// a later item with a name replaces an earlier one (what collecting the
/// items into a map by name gives).
pub open spec fn server_index(server: Seq<JsonValue>) -> Map<Seq<char>, JsonValue>
    decreases server.len(),
{
    if server.len() == 0 {
        Map::empty()
    } else {
        let prev = server_index(server.drop_last());
        match name_of(server.last()) {
            Some(n) => prev.insert(n, server.last()),
            None => prev,
        }
    }
}

/// Looking a local item's name up among the server items is a lookup in the
/// index by name: each name stands for exactly one server item, the last
/// one that carries it, and no later server item carries it again.
pub proof fn law_server_lookup_is_map(server: Seq<JsonValue>, name: Seq<char>)
    ensures
        server_index(server).dom().contains(name) <==> last_named(server, name) is Some,
        last_named(server, name) matches Some(j) ==> {
            &&& 0 <= j < server.len()
            &&& name_of(server[j]) == Some(name)
            &&& server_index(server)[name] == server[j]
            &&& forall|k: int| j < k < server.len() ==> name_of(#[trigger] server[k]) != Some(name)
        },
    decreases server.len(),
{
    if server.len() > 0 {
        law_server_lookup_is_map(server.drop_last(), name);
        let p = server.drop_last();
        if name_of(server.last()) != Some(name) {
            if let Some(j) = last_named(p, name) {
                assert forall|k: int| j < k < server.len() implies name_of(#[trigger] server[k]) != Some(name) by {
                    if k < server.len() - 1 {
                        assert(server[k] == p[k]);
                    }
                }
                assert(server[j] == p[j]);
            }
        }
    }
}

proof fn lemma_local_entry(local: Seq<JsonValue>, server: Seq<JsonValue>, i: int)
    requires
        0 <= i < local.len(),
    ensures
        local_entries(local, server).len() == local.len(),
        diff_entries(local, server)[i] == (local_mark(local[i], server), local_label(local[i])),
    decreases local.len(),
{
    lemma_local_len(local, server);
    if i < local.len() - 1 {
        lemma_local_entry(local.drop_last(), server, i);
        assert(local.drop_last()[i] == local[i]);
    }
}

proof fn lemma_last_named_is(server: Seq<JsonValue>, name: Seq<char>, j: int)
    requires
        0 <= j < server.len(),
        name_of(server[j]) == Some(name),
        forall|k: int| j < k < server.len() ==> name_of(#[trigger] server[k]) != Some(name),
    ensures
        last_named(server, name) == Some(j),
    decreases server.len(),
{
    if j < server.len() - 1 {
        let p = server.drop_last();
        assert(name_of(server[server.len() - 1]) != Some(name));
        assert forall|k: int| j < k < p.len() implies name_of(#[trigger] p[k]) != Some(name) by {
            assert(p[k] == server[k]);
        }
        lemma_last_named_is(p, name, j);
    }
}

proof fn lemma_no_named(server: Seq<JsonValue>, name: Seq<char>)
    requires
        forall|k: int| 0 <= k < server.len() ==> name_of(#[trigger] server[k]) != Some(name),
    ensures
        last_named(server, name) is None,
    decreases server.len(),
{
    if server.len() > 0 {
        let p = server.drop_last();
        assert(name_of(server[server.len() - 1]) != Some(name));
        assert forall|k: int| 0 <= k < p.len() implies name_of(#[trigger] p[k]) != Some(name) by {
            assert(p[k] == server[k]);
        }
        lemma_no_named(p, name);
    }
}

/// How each local item is marked. With no server item of its name it is
/// new. Otherwise it is compared with the last server item of that name:
/// it is modified whenever the compact JSON of its `condition` differs from
/// the server's `condition_json` string or the compact JSON of its `tasks`
/// differs from the server's `tasks_json` string (a missing field counting
/// as a value of its own), and unchanged only when both agree. The entry
/// carries the local item's name.
pub proof fn law_diff_marks(local: Seq<JsonValue>, server: Seq<JsonValue>, i: int, j: int)
    requires
        0 <= i < local.len(),
        -1 <= j < server.len(),
        j >= 0 ==> name_of(server[j]) == Some(local_label(local[i])),
        forall|k: int| j < k < server.len() ==> name_of(#[trigger] server[k]) != Some(local_label(local[i])),
    ensures
        ({
            let l = local[i];
            let entry = diff_entries(local, server)[i];
            let local_cond = match field_opt(l, "condition"@) {
                Some(v) => Some(serde_json_compact(v)),
                None => None,
            };
            let local_tasks = match field_opt(l, "tasks"@) {
                Some(v) => Some(serde_json_compact(v)),
                None => None,
            };
            &&& entry.1 == local_label(l)
            &&& j < 0 ==> entry.0 == DiffMark::New
            &&& j >= 0 ==> {
                let s = server[j];
                let server_cond = match field_opt(s, "condition_json"@) {
                    Some(v) => as_str_spec(v),
                    None => None,
                };
                let server_tasks = match field_opt(s, "tasks_json"@) {
                    Some(v) => as_str_spec(v),
                    None => None,
                };
                &&& (local_cond != server_cond || local_tasks != server_tasks) ==> entry.0
                    == DiffMark::Modified
                &&& (local_cond == server_cond && local_tasks == server_tasks) ==> entry.0
                    == DiffMark::Unchanged
            }
        }),
{
    lemma_local_entry(local, server, i);
    if j >= 0 {
        lemma_last_named_is(server, local_label(local[i]), j);
    } else {
        lemma_no_named(server, local_label(local[i]));
    }
}

/// Whether no local item carries this name.
pub open spec fn unnamed_locally(local: Seq<JsonValue>, name: Seq<char>) -> bool {
    forall|i: int| 0 <= i < local.len() ==> name_of(#[trigger] local[i]) != Some(name)
}

proof fn lemma_deleted_filter(local: Seq<JsonValue>, server: Seq<JsonValue>)
    ensures
        deleted_entries(local, server).len() == server.filter(
            |s: JsonValue| unnamed_locally(local, server_label(s)),
        ).len(),
        forall|k: int|
            0 <= k < deleted_entries(local, server).len() ==> #[trigger] deleted_entries(local, server)[k].0
                == DiffMark::Deleted,
    decreases server.len(),
{
    reveal_with_fuel(Seq::filter, 1);
    if server.len() > 0 {
        lemma_deleted_filter(local, server.drop_last());
        let name = server_label(server.last());
        if has_named(local, name) {
            let i = choose|i: int| 0 <= i < local.len() && name_of(#[trigger] local[i]) == Some(name);
            assert(!unnamed_locally(local, name));
        } else {
            assert(unnamed_locally(local, name));
        }
    }
}

/// The server items listed as deleted are exactly those whose name no local
/// item carries: there is one deleted entry for each of them, in server
/// order, each carrying the server item's name, and no other.
pub proof fn law_diff_deleted(local: Seq<JsonValue>, server: Seq<JsonValue>)
    ensures
        count_mark(diff_entries(local, server), DiffMark::Deleted) == server.filter(
            |s: JsonValue| unnamed_locally(local, server_label(s)),
        ).len(),
        diff_entries(local, server).subrange(local.len() as int, diff_entries(local, server).len() as int)
            == server.filter(|s: JsonValue| unnamed_locally(local, server_label(s))).map_values(
            |s: JsonValue| (DiffMark::Deleted, server_label(s)),
        ),
{
    reveal_with_fuel(Seq::filter, 1);
    lemma_local_marks(local, server);
    lemma_deleted_marks(local, server);
    lemma_local_len(local, server);
    lemma_count_concat(local_entries(local, server), deleted_entries(local, server), DiffMark::Deleted);
    lemma_deleted_filter(local, server);
    lemma_deleted_map(local, server);
    assert(diff_entries(local, server).subrange(local.len() as int, diff_entries(local, server).len() as int)
        =~= deleted_entries(local, server));
}

proof fn lemma_deleted_map(local: Seq<JsonValue>, server: Seq<JsonValue>)
    ensures
        deleted_entries(local, server) == server.filter(|s: JsonValue| unnamed_locally(local, server_label(s))).map_values(
            |s: JsonValue| (DiffMark::Deleted, server_label(s)),
        ),
    decreases server.len(),
{
    reveal_with_fuel(Seq::filter, 1);
    if server.len() > 0 {
        lemma_deleted_map(local, server.drop_last());
        let name = server_label(server.last());
        let f = server.drop_last().filter(|s: JsonValue| unnamed_locally(local, server_label(s)));
        if has_named(local, name) {
            let i = choose|i: int| 0 <= i < local.len() && name_of(#[trigger] local[i]) == Some(name);
            assert(!unnamed_locally(local, name));
        } else {
            assert(unnamed_locally(local, name));
            assert(f.push(server.last()).map_values(|s: JsonValue| (DiffMark::Deleted, server_label(s)))
                =~= f.map_values(|s: JsonValue| (DiffMark::Deleted, server_label(s))).push(
                (DiffMark::Deleted, name),
            ));
        }
    }
}

} // verus!
