//! Reading the device-link tool's replies: the paired-device list, the
//! reachable identifiers, mount points, the OS mount table, and property values.
use vstd::prelude::*;
use crate::model::opt_text;
use crate::text::{
    pieces, same_chars, split_words, words,
    chars_of, is_space, last_index_of, last_index_of_char, lines, skip_space_run, slice_chars,
    spaces_len, split_lines, string_of, texts, trim, trim_chars,
};

verus! {

/// A character that a device identifier may hold.
pub open spec fn is_id_char(c: char) -> bool {
    ||| 'A' <= c <= 'Z'
    ||| 'a' <= c <= 'z'
    ||| '0' <= c <= '9'
    ||| c == '_'
    ||| c == '-'
}

pub open spec fn is_identifier(s: Seq<char>) -> bool {
    s.len() > 0 && forall|i: int| 0 <= i < s.len() ==> is_id_char(#[trigger] s[i])
}

/// Number of identifier characters that `s` begins with.
pub open spec fn id_prefix_len(s: Seq<char>) -> nat
    decreases s.len(),
{
    if s.len() > 0 && is_id_char(s[0]) {
        1 + id_prefix_len(s.drop_first())
    } else {
        0
    }
}

pub open spec fn min_int(a: int, b: int) -> int {
    if a <= b { a } else { b }
}

/// The older list format, `- Name: id`: a dash, the name up to the last colon,
/// then whitespace and the identifier to the end. Whitespace after the dash
/// belongs to the name only where the name would otherwise be empty.
/// The result is (identifier, name).
pub open spec fn legacy_entry(t: Seq<char>) -> Option<(Seq<char>, Seq<char>)> {
    let c = last_index_of(t, ':');
    let tail = t.skip(c + 1);
    let id = tail.skip(spaces_len(tail) as int);
    let start = 1 + min_int(spaces_len(t.skip(1)) as int, c - 2);
    if t.len() > 0 && t[0] == '-' && c >= 2 && is_identifier(id) {
        Some((id, t.subrange(start, c)))
    } else {
        None
    }
}

/// The current list format, `id Name`: the identifier, whitespace, then the
/// name to the end. The result is (identifier, name).
pub open spec fn current_entry(t: Seq<char>) -> Option<(Seq<char>, Seq<char>)> {
    let p = id_prefix_len(t) as int;
    let q = spaces_len(t.skip(p)) as int;
    if p > 0 && q > 0 && p + q < t.len() {
        Some((t.take(p), t.skip(p + q)))
    } else {
        None
    }
}

/// The entry that one trimmed line of the device list gives, if any.
pub open spec fn device_entry(t: Seq<char>) -> Option<(Seq<char>, Seq<char>)> {
    if legacy_entry(t) is Some {
        legacy_entry(t)
    } else {
        current_entry(t)
    }
}

/// The (identifier, name) entries of a device list, line by line in order;
/// lines in neither format are skipped.
pub open spec fn device_entries(ls: Seq<Seq<char>>) -> Seq<(Seq<char>, Seq<char>)>
    decreases ls.len(),
{
    if ls.len() == 0 {
        Seq::empty()
    } else {
        let rest = device_entries(ls.drop_last());
        match device_entry(trim(ls.last())) {
            Some(e) => rest.push(e),
            None => rest,
        }
    }
}

pub open spec fn pair_texts(v: Seq<(String, String)>) -> Seq<(Seq<char>, Seq<char>)> {
    v.map_values(|p: (String, String)| (p.0@, p.1@))
}

pub open spec fn string_texts(v: Seq<String>) -> Seq<Seq<char>> {
    v.map_values(|s: String| s@)
}

/// Number of identifier characters of `v` from `i` on.
fn id_run_end(v: &Vec<char>, i: usize) -> (r: usize)
    requires
        i <= v.len(),
    ensures
        r == i + id_prefix_len(v@.skip(i as int)),
        r <= v.len(),
{
    let mut j = i;
    while j < v.len() && is_id_char_exec(v[j])
        invariant
            i <= j <= v.len(),
            id_prefix_len(v@.skip(i as int)) == (j - i) + id_prefix_len(v@.skip(j as int)),
        decreases v.len() - j,
    {
        assert(v@.skip(j as int).drop_first() == v@.skip(j as int + 1));
        j = j + 1;
    }
    j
}

pub fn is_id_char_exec(c: char) -> (r: bool)
    ensures
        r == is_id_char(c),
{
    ('A' <= c && c <= 'Z') || ('a' <= c && c <= 'z') || ('0' <= c && c <= '9') || c == '_' || c
        == '-'
}

/// The entry of one trimmed line of the device list.
pub fn parse_device_entry(t: &Vec<char>) -> (r: Option<(Vec<char>, Vec<char>)>)
    ensures
        match r {
            Some(e) => device_entry(t@) == Some((e.0@, e.1@)),
            None => device_entry(t@) is None,
        },
{
    let found = last_index_of_char(t, ':');
    let cu: usize = match found {
        Some(i) => i,
        None => 0,
    };
    let ghost c = last_index_of(t@, ':');
    if t.len() > 0 && t[0] == '-' && cu >= 2 {
        let k = skip_space_run(t, cu + 1);
        let e = id_run_end(t, k);
        proof {
            let tail = t@.skip(c + 1);
            assert(tail.skip(spaces_len(tail) as int) == t@.skip(k as int));
        }
        if k < t.len() && e == t.len() {
            let w = skip_space_run(t, 1);
            let start = if w <= cu - 1 { w } else { cu - 1 };
            let id = slice_chars(t, k, t.len());
            let name = slice_chars(t, start, cu);
            proof {
                assert(t@.skip(k as int) == id@);
                let s = t@.skip(k as int);
                assert forall|i: int| 0 <= i < s.len() implies is_id_char(#[trigger] s[i]) by {
                    lemma_id_prefix(s, i);
                }
            }
            return Some((id, name));
        }
        proof {
            let s = t@.skip(k as int);
            if is_identifier(s) {
                lemma_id_prefix_full(s);
            }
        }
    }
    let p = id_run_end(t, 0);
    assert(t@.skip(0) == t@);
    let q = skip_space_run(t, p);
    if p > 0 && q > p && q < t.len() {
        let id = slice_chars(t, 0, p);
        let name = slice_chars(t, q, t.len());
        assert(t@.take(p as int) == id@);
        assert(t@.skip(q as int) == name@);
        return Some((id, name));
    }
    None
}

proof fn lemma_id_prefix(s: Seq<char>, i: int)
    requires
        0 <= i < s.len(),
        id_prefix_len(s) == s.len(),
    ensures
        is_id_char(s[i]),
    decreases s.len(),
{
    if i > 0 {
        lemma_id_prefix(s.drop_first(), i - 1);
    }
}

proof fn lemma_id_prefix_full(s: Seq<char>)
    requires
        is_identifier(s),
    ensures
        id_prefix_len(s) == s.len(),
    decreases s.len(),
{
    assert(is_id_char(s[0]));
    if s.len() > 1 {
        assert forall|i: int| 0 <= i < s.len() - 1 implies is_id_char(
            #[trigger] s.drop_first()[i],
        ) by {
            assert(s.drop_first()[i] == s[i + 1]);
        }
        lemma_id_prefix_full(s.drop_first());
    } else {
        assert(s.drop_first().len() == 0);
        assert(id_prefix_len(s.drop_first()) == 0);
    }
}

/// The paired devices that the tool lists, as (identifier, name) in order.
pub fn parse_device_list(out: &str) -> (r: Vec<(String, String)>)
    ensures
        pair_texts(r@) == device_entries(lines(out@)),
{
    let v = chars_of(out);
    let ls = split_lines(&v);
    let mut r: Vec<(String, String)> = Vec::new();
    let mut i: usize = 0;
    while i < ls.len()
        invariant
            i <= ls.len(),
            texts(ls@) == lines(out@),
            pair_texts(r@) == device_entries(texts(ls@).take(i as int)),
        decreases ls.len() - i,
    {
        let t = trim_chars(&ls[i]);
        proof {
            assert(texts(ls@).take(i as int + 1).drop_last() == texts(ls@).take(i as int));
            assert(texts(ls@).take(i as int + 1).last() == ls@[i as int]@);
        }
        match parse_device_entry(&t) {
            Some(e) => {
                let ghost before = r@;
                r.push((string_of(e.0.as_slice()), string_of(e.1.as_slice())));
                assert(pair_texts(r@) == pair_texts(before).push((e.0@, e.1@)));
            },
            None => {},
        }
        i = i + 1;
    }
    assert(texts(ls@).take(ls.len() as int) == texts(ls@));
    r
}


/// The identifiers of a reachable-device list: each line trimmed, blank ones
/// skipped.
pub open spec fn id_lines(ls: Seq<Seq<char>>) -> Seq<Seq<char>>
    decreases ls.len(),
{
    if ls.len() == 0 {
        Seq::empty()
    } else if trim(ls.last()).len() > 0 {
        id_lines(ls.drop_last()).push(trim(ls.last()))
    } else {
        id_lines(ls.drop_last())
    }
}

/// The reachable device identifiers that the tool lists, in order.
pub fn parse_reachable_ids(out: &str) -> (r: Vec<String>)
    ensures
        string_texts(r@) == id_lines(lines(out@)),
{
    let v = chars_of(out);
    let ls = split_lines(&v);
    let mut r: Vec<String> = Vec::new();
    let mut i: usize = 0;
    while i < ls.len()
        invariant
            i <= ls.len(),
            texts(ls@) == lines(out@),
            string_texts(r@) == id_lines(texts(ls@).take(i as int)),
        decreases ls.len() - i,
    {
        let t = trim_chars(&ls[i]);
        proof {
            assert(texts(ls@).take(i as int + 1).drop_last() == texts(ls@).take(i as int));
            assert(texts(ls@).take(i as int + 1).last() == ls@[i as int]@);
        }
        if t.len() > 0 {
            let ghost before = r@;
            r.push(string_of(t.as_slice()));
            assert(string_texts(r@) == string_texts(before).push(t@));
        }
        i = i + 1;
    }
    assert(texts(ls@).take(ls.len() as int) == texts(ls@));
    r
}

proof fn lemma_pieces_nonempty(acc: Seq<char>, rest: Seq<char>, sep: char)
    ensures
        pieces(acc, rest, sep).len() >= 1,
    decreases rest.len(),
{
    if rest.len() > 0 {
        if rest[0] == sep {
            lemma_pieces_nonempty(Seq::empty(), rest.drop_first(), sep);
        } else {
            lemma_pieces_nonempty(acc.push(rest[0]), rest.drop_first(), sep);
        }
    }
}

/// The mount point that a `--get-mount-point` reply names: its first line,
/// trimmed; absent when that is blank.
pub open spec fn mount_point_of(out: Seq<char>) -> Option<Seq<char>> {
    let t = trim(lines(out)[0]);
    if t.len() > 0 {
        Some(t)
    } else {
        None
    }
}

/// The mount point in a `--get-mount-point` reply.
pub fn mount_point_from_reply(out: &str) -> (r: Option<String>)
    ensures
        opt_text(r) == mount_point_of(out@),
{
    let v = chars_of(out);
    let ls = split_lines(&v);
    proof {
        lemma_pieces_nonempty(Seq::empty(), v@, '\n');
    }
    let t = trim_chars(&ls[0]);
    if t.len() > 0 {
        Some(string_of(t.as_slice()))
    } else {
        None
    }
}

/// The mount target a line of the OS mount table names: its second
/// whitespace-separated field.
pub open spec fn mount_target(line: Seq<char>) -> Option<Seq<char>> {
    if words(line).len() >= 2 {
        Some(words(line)[1])
    } else {
        None
    }
}

/// Some line of the mount table has `path` as its target.
pub open spec fn table_lists(table: Seq<char>, path: Seq<char>) -> bool {
    exists|i: int| 0 <= i < lines(table).len() && #[trigger] mount_target(lines(table)[i]) == Some(
        path,
    )
}

/// Whether the mount table text, when it could be read, lists `path` as a
/// mount target.
pub fn is_mountpoint_mounted(path: &str, table: &Option<String>) -> (r: bool)
    ensures
        r == match table {
            Some(t) => table_lists(t@, path@),
            None => false,
        },
{
    let t = match table {
        Some(t) => t,
        None => {
            return false;
        },
    };
    let p = chars_of(path);
    let v = chars_of(t.as_str());
    let ls = split_lines(&v);
    let mut i: usize = 0;
    while i < ls.len()
        invariant
            i <= ls.len(),
            texts(ls@) == lines(t@),
            p@ == path@,
            *table == Some(*t),
            forall|k: int| 0 <= k < i ==> #[trigger] mount_target(lines(t@)[k]) != Some(path@),
        decreases ls.len() - i,
    {
        let ws = split_words(&ls[i]);
        assert(texts(ls@)[i as int] == ls@[i as int]@);
        if ws.len() >= 2 && same_chars(ws[1].as_slice(), p.as_slice()) {
            assert(texts(ws@)[1] == ws@[1]@);
            assert(mount_target(lines(t@)[i as int]) == Some(path@));
            assert(texts(ls@).len() == ls@.len());
            assert(table_lists(t@, path@));
            return true;
        }
        proof {
            if ws.len() >= 2 {
                assert(texts(ws@)[1] == ws@[1]@);
            }
        }
        i = i + 1;
    }
    false
}

/// What one check of a device's mount shows: mounted exactly when a non-empty
/// mount point is reported and the mount table lists it.
pub struct MountObservation {
    pub mounted: bool,
    pub mount_point: Option<String>,
}

pub open spec fn observed_mounted(point: Option<Seq<char>>, table: Option<String>) -> bool {
    match (point, table) {
        (Some(p), Some(t)) => p.len() > 0 && table_lists(t@, p),
        _ => false,
    }
}

/// Combines the reported mount point (absent when the query failed) with the
/// mount table (absent when it could not be read).
pub fn observe_mount(point: Option<String>, table: &Option<String>) -> (r: MountObservation)
    ensures
        r.mounted == observed_mounted(opt_text(point), *table),
        opt_text(r.mount_point) == match opt_text(point) {
            Some(p) => if p.len() > 0 {
                Some(p)
            } else {
                None
            },
            None => None,
        },
{
    match point {
        Some(p) => {
            if p.as_str().is_empty() {
                MountObservation { mounted: false, mount_point: None }
            } else {
                let mounted = is_mountpoint_mounted(p.as_str(), table);
                MountObservation { mounted, mount_point: Some(p) }
            }
        },
        None => MountObservation { mounted: false, mount_point: None },
    }
}

/// The signal percentage for a bar count: 25 per bar, capped at 100.
pub open spec fn percent_for_bars(bars: int) -> int {
    if bars > 4 {
        100
    } else {
        bars * 25
    }
}

/// The bar-to-percent mapping: 0 to 4 bars give 0, 25, 50, 75 and 100; more
/// bars give 100. It never decreases as the bars grow, stays within 0 to 100,
/// and reading a mapped percentage back as bars (25 per bar) and mapping it
/// again gives the same percentage.
pub proof fn lemma_signal_mapping(a: int, b: int)
    requires
        0 <= a <= b,
    ensures
        percent_for_bars(0) == 0,
        percent_for_bars(1) == 25,
        percent_for_bars(2) == 50,
        percent_for_bars(3) == 75,
        percent_for_bars(4) == 100,
        a > 4 ==> percent_for_bars(a) == 100,
        percent_for_bars(a) <= percent_for_bars(b),
        0 <= percent_for_bars(a) <= 100,
        percent_for_bars(percent_for_bars(a) / 25) == percent_for_bars(a),
{
    if a <= 4 {
        assert(a == 0 || a == 1 || a == 2 || a == 3 || a == 4);
    }
}

pub fn signal_percent_for_bars(bars: u8) -> (r: u8)
    ensures
        r == percent_for_bars(bars as int),
{
    if bars > 4 {
        100
    } else {
        bars * 25
    }
}

/// The signal percentage of a raw bar reading: 25 per bar, and 100 for any
/// reading above 4 bars; absent when there is no reading or it is negative.
pub open spec fn signal_for(raw: Option<i32>) -> Option<u8> {
    match raw {
        Some(b) => if b < 0 {
            None
        } else {
            Some(percent_for_bars(b as int) as u8)
        },
        None => None,
    }
}

/// Over raw readings: every reading above 4 bars gives 100, and the
/// percentage never drops as the bars grow and stays within 0 to 100.
pub proof fn lemma_signal_reading(a: i32, b: i32)
    requires
        0 <= a <= b,
    ensures
        b > 4 ==> signal_for(Some(b)) == Some(100u8),
        signal_for(Some(a)) is Some && signal_for(Some(b)) is Some,
        signal_for(Some(a))->0 <= signal_for(Some(b))->0 <= 100,
        signal_for(Some(a))->0 == percent_for_bars(a as int),
{
    lemma_signal_mapping(a as int, b as int);
    lemma_signal_mapping(b as int, b as int);
}

pub open spec fn battery_for(raw: Option<i32>) -> Option<u8> {
    match raw {
        Some(c) => if 0 <= c <= 100 {
            Some(c as u8)
        } else {
            None
        },
        None => None,
    }
}

/// The signal percentage for a raw bar reading; see `signal_for`.
pub fn signal_percent(raw: Option<i32>) -> (r: Option<u8>)
    ensures
        r == signal_for(raw),
{
    match raw {
        Some(b) => if b < 0 {
            None
        } else if b > 4 {
            Some(100)
        } else {
            Some(signal_percent_for_bars(b as u8))
        },
        None => None,
    }
}

/// The battery percentage for a raw charge reading; absent when there is none
/// or it lies outside 0 to 100.
pub fn battery_percent(raw: Option<i32>) -> (r: Option<u8>)
    ensures
        r == battery_for(raw),
{
    match raw {
        Some(c) => if 0 <= c && c <= 100 {
            Some(c as u8)
        } else {
            None
        },
        None => None,
    }
}

} // verus!
