//! Property-bus replies in their textual form: a type-signature token, then
//! the value. One parser per value shape.
use vstd::prelude::*;
use crate::text::{
    bool_value, chars_of, i32_value, parse_bool_chars, parse_i32_chars, slice_chars, split_words,
    string_of, texts, trim, trim_chars, words,
};

verus! {

pub open spec fn trim_quotes_start(s: Seq<char>) -> Seq<char>
    decreases s.len(),
{
    if s.len() > 0 && s[0] == '"' {
        trim_quotes_start(s.drop_first())
    } else {
        s
    }
}

pub open spec fn trim_quotes_end(s: Seq<char>) -> Seq<char>
    decreases s.len(),
{
    if s.len() > 0 && s.last() == '"' {
        trim_quotes_end(s.drop_last())
    } else {
        s
    }
}

/// Index of the first `c` in `s`, or -1.
pub open spec fn first_index_of(s: Seq<char>, c: char) -> int
    decreases s.len(),
{
    if s.len() == 0 {
        -1
    } else if s[0] == c {
        0
    } else {
        let k = first_index_of(s.drop_first(), c);
        if k < 0 {
            -1
        } else {
            k + 1
        }
    }
}

/// The string value of a reply: what follows the first space of the trimmed
/// reply, trimmed, stripped of surrounding quotes and trimmed again; absent
/// when there is no space or nothing is left.
pub open spec fn string_reply_value(raw: Seq<char>) -> Option<Seq<char>> {
    let t = trim(raw);
    let k = first_index_of(t, ' ');
    let v = trim(trim_quotes_end(trim_quotes_start(trim(t.skip(k + 1)))));
    if k >= 0 && v.len() > 0 {
        Some(v)
    } else {
        None
    }
}

/// The value token of a reply: its second whitespace-separated token.
pub open spec fn value_token(raw: Seq<char>) -> Option<Seq<char>> {
    if words(raw).len() >= 2 {
        Some(words(raw)[1])
    } else {
        None
    }
}

pub open spec fn bool_reply_value(raw: Seq<char>) -> Option<bool> {
    match value_token(raw) {
        Some(t) => bool_value(t),
        None => None,
    }
}

pub open spec fn int_reply_value(raw: Seq<char>) -> Option<i32> {
    match value_token(raw) {
        Some(t) => i32_value(t),
        None => None,
    }
}

fn first_index_of_char(v: &Vec<char>, c: char) -> (r: Option<usize>)
    ensures
        match r {
            Some(i) => i == first_index_of(v@, c) && i < v.len(),
            None => first_index_of(v@, c) == -1,
        },
{
    let mut i: usize = 0;
    assert(v@.skip(0) == v@);
    while i < v.len()
        invariant
            i <= v.len(),
            first_index_of(v@, c) == if first_index_of(v@.skip(i as int), c) < 0 {
                -1
            } else {
                first_index_of(v@.skip(i as int), c) + i
            },
        decreases v.len() - i,
    {
        assert(v@.skip(i as int).drop_first() == v@.skip(i as int + 1));
        if v[i] == c {
            return Some(i);
        }
        i = i + 1;
    }
    None
}

fn strip_quotes(v: &Vec<char>) -> (r: Vec<char>)
    ensures
        r@ == trim_quotes_end(trim_quotes_start(v@)),
{
    let mut a: usize = 0;
    assert(v@.skip(0) == v@);
    while a < v.len() && v[a] == '"'
        invariant
            a <= v.len(),
            trim_quotes_start(v@) == trim_quotes_start(v@.skip(a as int)),
        decreases v.len() - a,
    {
        assert(v@.skip(a as int).drop_first() == v@.skip(a as int + 1));
        a = a + 1;
    }
    assert(trim_quotes_start(v@) == v@.subrange(a as int, v.len() as int));
    let mut b = v.len();
    while b > a && v[b - 1] == '"'
        invariant
            a <= b <= v.len(),
            trim_quotes_end(v@.subrange(a as int, v.len() as int)) == trim_quotes_end(
                v@.subrange(a as int, b as int),
            ),
        decreases b,
    {
        assert(v@.subrange(a as int, b as int).drop_last() == v@.subrange(a as int, b - 1));
        b = b - 1;
    }
    slice_chars(v, a, b)
}

/// The string value of a reply such as `s "Spotify"`.
pub fn parse_dbus_string(raw: &str) -> (r: Option<String>)
    ensures
        match r {
            Some(s) => string_reply_value(raw@) == Some(s@),
            None => string_reply_value(raw@) is None,
        },
{
    let t = trim_chars(&chars_of(raw));
    match first_index_of_char(&t, ' ') {
        Some(k) => {
            let rest = slice_chars(&t, k + 1, t.len());
            assert(rest@ == t@.skip(k + 1));
            let v = trim_chars(&strip_quotes(&trim_chars(&rest)));
            if v.len() > 0 {
                Some(string_of(v.as_slice()))
            } else {
                None
            }
        },
        None => None,
    }
}

fn value_token_chars(raw: &str) -> (r: Option<Vec<char>>)
    ensures
        match r {
            Some(t) => value_token(raw@) == Some(t@),
            None => value_token(raw@) is None,
        },
{
    let mut ws = split_words(&chars_of(raw));
    if ws.len() >= 2 {
        assert(texts(ws@)[1] == ws@[1]@);
        Some(ws.remove(1))
    } else {
        None
    }
}

/// The boolean value of a reply such as `b true`.
pub fn parse_dbus_bool(raw: &str) -> (r: Option<bool>)
    ensures
        r == bool_reply_value(raw@),
{
    match value_token_chars(raw) {
        Some(t) => parse_bool_chars(&t),
        None => None,
    }
}

/// The integer value of a reply such as `i 42`.
pub fn parse_dbus_int(raw: &str) -> (r: Option<i32>)
    ensures
        r == int_reply_value(raw@),
{
    match value_token_chars(raw) {
        Some(t) => parse_i32_chars(&t),
        None => None,
    }
}

/// Number of characters other than `"` that `s` begins with.
pub open spec fn unquoted_len(s: Seq<char>) -> nat
    decreases s.len(),
{
    if s.len() > 0 && s[0] != '"' {
        1 + unquoted_len(s.drop_first())
    } else {
        0
    }
}

/// Every non-empty run of characters between two quotes, scanning from the
/// left and not reusing a closing quote: the items of an array reply.
pub open spec fn quoted_items(s: Seq<char>) -> Seq<Seq<char>>
    decreases s.len(),
{
    if s.len() == 0 {
        Seq::empty()
    } else if s[0] != '"' {
        quoted_items(s.drop_first())
    } else {
        let rest = s.drop_first();
        let n = unquoted_len(rest) as int;
        if n == 0 {
            quoted_items(rest)
        } else if n >= rest.len() {
            Seq::empty()
        } else {
            seq![rest.take(n)] + quoted_items(rest.skip(n + 1))
        }
    }
}

/// Run of non-quote characters of `v` from `i` on: its end.
fn unquoted_end(v: &Vec<char>, i: usize) -> (r: usize)
    requires
        i <= v.len(),
    ensures
        r == i + unquoted_len(v@.skip(i as int)),
        r <= v.len(),
{
    let mut j = i;
    while j < v.len() && v[j] != '"'
        invariant
            i <= j <= v.len(),
            unquoted_len(v@.skip(i as int)) == (j - i) + unquoted_len(v@.skip(j as int)),
        decreases v.len() - j,
    {
        assert(v@.skip(j as int).drop_first() == v@.skip(j as int + 1));
        j = j + 1;
    }
    j
}

/// The quoted items of an array reply such as `as 2 "a" "b"`.
pub fn parse_dbus_string_array(raw: &str) -> (r: Vec<String>)
    ensures
        r@.map_values(|s: String| s@) == quoted_items(raw@),
{
    let v = chars_of(raw);
    let mut out: Vec<String> = Vec::new();
    let mut i: usize = 0;
    assert(v@.skip(0) == v@);
    while i < v.len()
        invariant
            i <= v.len(),
            v@ == raw@,
            quoted_items(raw@) == out@.map_values(|s: String| s@) + quoted_items(
                v@.skip(i as int),
            ),
        decreases v.len() - i,
    {
        let ghost s = v@.skip(i as int);
        if v[i] != '"' {
            assert(s.drop_first() == v@.skip(i as int + 1));
            i = i + 1;
        } else {
            let e = unquoted_end(&v, i + 1);
            proof {
                assert(s.drop_first() == v@.skip(i as int + 1));
            }
            if e == i + 1 {
                i = i + 1;
            } else if e == v.len() {
                assert(quoted_items(s) == Seq::<Seq<char>>::empty());
                assert(out@.map_values(|s: String| s@) + Seq::<Seq<char>>::empty()
                    == out@.map_values(|s: String| s@));
                return out;
            } else {
                let item = slice_chars(&v, i + 1, e);
                proof {
                    let rest = s.drop_first();
                    assert(rest.take(e - i - 1) == item@);
                    assert(rest.skip(e - i) == v@.skip(e + 1));
                }
                let ghost before = out@;
                out.push(string_of(item.as_slice()));
                proof {
                    let m = |s: String| s@;
                    assert(out@.map_values(m) == before.map_values(m).push(item@));
                    assert(before.map_values(m) + (seq![item@] + quoted_items(v@.skip(e + 1)))
                        == out@.map_values(m) + quoted_items(v@.skip(e + 1)));
                }
                i = e + 1;
            }
        }
    }
    assert(v@.skip(v.len() as int).len() == 0);
    assert(out@.map_values(|s: String| s@) + Seq::<Seq<char>>::empty() == out@.map_values(
        |s: String| s@,
    ));
    out
}

} // verus!
