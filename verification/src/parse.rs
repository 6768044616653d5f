use vstd::prelude::*;

use crate::codec::chars_to_string;

verus! {

/// Whitespace that may pad a line without changing its meaning.
pub open spec fn is_line_ws(c: char) -> bool {
    c == ' ' || c == '\t' || c == '\r'
}

/// A character allowed in a bare key.
pub open spec fn is_key_char(c: char) -> bool {
    ('a' <= c && c <= 'z') || ('A' <= c && c <= 'Z') || ('0' <= c && c <= '9') || c == '_' || c
        == '-'
}

/// Nothing further on this line: the end of the text or a line break.
pub open spec fn at_eol(s: Seq<char>, i: int) -> bool {
    i >= s.len() || s[i] == '\n'
}

/// The first position at or after `i` that does not hold line whitespace.
pub open spec fn skip_ws(s: Seq<char>, i: int) -> int
    decreases s.len() - i,
{
    if i < s.len() && is_line_ws(s[i]) {
        skip_ws(s, i + 1)
    } else {
        i
    }
}

/// The first position at or after `i` that does not hold a key character.
pub open spec fn skip_key(s: Seq<char>, i: int) -> int
    decreases s.len() - i,
{
    if i < s.len() && is_key_char(s[i]) {
        skip_key(s, i + 1)
    } else {
        i
    }
}

/// The first position at or after `i` that ends a quoted value:
/// a closing quote, a line break, or the end of the text.
pub open spec fn scan_value(s: Seq<char>, i: int) -> int
    decreases s.len() - i,
{
    if i < s.len() && s[i] != '"' && s[i] != '\n' {
        scan_value(s, i + 1)
    } else {
        i
    }
}

/// The position of the line break that ends the line holding `i`,
/// or the end of the text.
pub open spec fn line_end(s: Seq<char>, i: int) -> int
    decreases s.len() - i,
{
    if i < s.len() && s[i] != '\n' {
        line_end(s, i + 1)
    } else {
        i
    }
}

pub proof fn lemma_line_end_bounds(s: Seq<char>, i: int)
    requires
        0 <= i <= s.len(),
    ensures
        i <= line_end(s, i) <= s.len(),
    decreases s.len() - i,
{
    if i < s.len() && s[i] != '\n' {
        lemma_line_end_bounds(s, i + 1);
    }
}

/// What one line means, reading from position `i`.
/// `None` is a malformed line; `Some(None)` is a blank or comment line;
/// `Some(Some((key, value)))` is one `key = "value"` entry, with optional
/// padding and an optional trailing comment.
pub open spec fn parse_line(s: Seq<char>, i: int) -> Option<Option<(Seq<char>, Seq<char>)>> {
    let k0 = skip_ws(s, i);
    if at_eol(s, k0) || s[k0] == '#' {
        Some(None)
    } else {
        let k1 = skip_key(s, k0);
        let q0 = skip_ws(s, k1);
        let v0 = skip_ws(s, q0 + 1);
        let v1 = scan_value(s, v0 + 1);
        let t0 = skip_ws(s, v1 + 1);
        if k1 == k0 {
            None
        } else if at_eol(s, q0) || s[q0] != '=' {
            None
        } else if at_eol(s, v0) || s[v0] != '"' {
            None
        } else if at_eol(s, v1) {
            None
        } else if !(at_eol(s, t0) || s[t0] == '#') {
            None
        } else {
            Some(Some((s.subrange(k0, k1), s.subrange(v0 + 1, v1))))
        }
    }
}

/// The entries of the document from position `i` on, line by line,
/// or nothing if any line is malformed.
pub open spec fn parse_doc(s: Seq<char>, i: int) -> Option<Seq<(Seq<char>, Seq<char>)>>
    decreases s.len() - i,
    when 0 <= i
    via parse_doc_decreases
{
    if i >= s.len() {
        Some(Seq::empty())
    } else {
        match parse_line(s, i) {
            None => None,
            Some(opt) => {
                let e = line_end(s, i);
                let rest = if e >= s.len() {
                    Some(Seq::<(Seq<char>, Seq<char>)>::empty())
                } else {
                    parse_doc(s, e + 1)
                };
                match rest {
                    None => None,
                    Some(tail) => match opt {
                        None => Some(tail),
                        Some(kv) => Some(seq![kv] + tail),
                    },
                }
            },
        }
    }
}

#[via_fn]
proof fn parse_doc_decreases(s: Seq<char>, i: int) {
    if 0 <= i < s.len() {
        lemma_line_end_bounds(s, i);
    }
}

/// The value of the first entry with the given key, if any.
pub open spec fn lookup_at(doc: Seq<(Seq<char>, Seq<char>)>, key: Seq<char>, i: int) -> Option<
    Seq<char>,
>
    decreases doc.len() - i,
{
    if i < 0 || i >= doc.len() {
        None
    } else if doc[i].0 == key {
        Some(doc[i].1)
    } else {
        lookup_at(doc, key, i + 1)
    }
}

/// The value of the first entry with the given key, if any.
pub open spec fn lookup(doc: Seq<(Seq<char>, Seq<char>)>, key: Seq<char>) -> Option<Seq<char>> {
    lookup_at(doc, key, 0)
}

/// The mathematical contents of parsed entries.
pub open spec fn doc_view(d: Seq<(String, String)>) -> Seq<(Seq<char>, Seq<char>)> {
    d.map_values(|p: (String, String)| (p.0@, p.1@))
}

/// The characters of a string, one by one.
fn str_chars(s: &str) -> (r: Vec<char>)
    ensures
        r@ == s@,
{
    let n = s.unicode_len();
    let mut v: Vec<char> = Vec::new();
    let mut i: usize = 0;
    while i < n
        invariant
            n == s@.len(),
            i <= n,
            v@ == s@.take(i as int),
        decreases n - i,
    {
        let c = s.get_char(i);
        v.push(c);
        proof {
            assert(s@.take(i + 1 as int) =~= s@.take(i as int) + seq![s@[i as int]]);
        }
        i = i + 1;
    }
    proof {
        assert(s@.take(n as int) =~= s@);
    }
    v
}

/// One stretch of the characters, as a string.
fn chars_range_string(v: &Vec<char>, from: usize, to: usize) -> (r: String)
    requires
        from <= to <= v.len(),
    ensures
        r@ == v@.subrange(from as int, to as int),
{
    let mut out: Vec<char> = Vec::new();
    let mut i = from;
    while i < to
        invariant
            from <= i <= to <= v@.len(),
            out@ == v@.subrange(from as int, i as int),
        decreases to - i,
    {
        out.push(v[i]);
        proof {
            assert(v@.subrange(from as int, i + 1 as int) =~= v@.subrange(from as int, i as int)
                + seq![v@[i as int]]);
        }
        i = i + 1;
    }
    chars_to_string(&out)
}

fn is_ws_at(v: &Vec<char>, i: usize) -> (b: bool)
    requires
        i < v.len(),
    ensures
        b == is_line_ws(v@[i as int]),
{
    let c = v[i];
    c == ' ' || c == '\t' || c == '\r'
}

fn is_key_char_at(v: &Vec<char>, i: usize) -> (b: bool)
    requires
        i < v.len(),
    ensures
        b == is_key_char(v@[i as int]),
{
    let c = v[i];
    ('a' <= c && c <= 'z') || ('A' <= c && c <= 'Z') || ('0' <= c && c <= '9') || c == '_' || c
        == '-'
}

fn skip_ws_x(v: &Vec<char>, i: usize) -> (r: usize)
    requires
        i <= v.len(),
    ensures
        r as int == skip_ws(v@, i as int),
        i <= r <= v.len(),
{
    let mut j = i;
    while j < v.len() && is_ws_at(v, j)
        invariant
            i <= j <= v.len(),
            skip_ws(v@, i as int) == skip_ws(v@, j as int),
        decreases v.len() - j,
    {
        j = j + 1;
    }
    j
}

fn skip_key_x(v: &Vec<char>, i: usize) -> (r: usize)
    requires
        i <= v.len(),
    ensures
        r as int == skip_key(v@, i as int),
        i <= r <= v.len(),
{
    let mut j = i;
    while j < v.len() && is_key_char_at(v, j)
        invariant
            i <= j <= v.len(),
            skip_key(v@, i as int) == skip_key(v@, j as int),
        decreases v.len() - j,
    {
        j = j + 1;
    }
    j
}

fn scan_value_x(v: &Vec<char>, i: usize) -> (r: usize)
    requires
        i <= v.len(),
    ensures
        r as int == scan_value(v@, i as int),
        i <= r <= v.len(),
{
    let mut j = i;
    while j < v.len() && v[j] != '"' && v[j] != '\n'
        invariant
            i <= j <= v.len(),
            scan_value(v@, i as int) == scan_value(v@, j as int),
        decreases v.len() - j,
    {
        j = j + 1;
    }
    j
}

fn line_end_x(v: &Vec<char>, i: usize) -> (r: usize)
    requires
        i <= v.len(),
    ensures
        r as int == line_end(v@, i as int),
        i <= r <= v.len(),
{
    let mut j = i;
    while j < v.len() && v[j] != '\n'
        invariant
            i <= j <= v.len(),
            line_end(v@, i as int) == line_end(v@, j as int),
        decreases v.len() - j,
    {
        j = j + 1;
    }
    j
}

/// What one line of the text holds.
enum LineItem {
    Blank,
    Entry(String, String),
    Malformed,
}

fn parse_line_x(v: &Vec<char>, i: usize) -> (r: LineItem)
    requires
        i <= v.len(),
    ensures
        ({
            match parse_line(v@, i as int) {
                None => r is Malformed,
                Some(opt) => match opt {
                    None => r is Blank,
                    Some(kv) => (r matches LineItem::Entry(ks, vs) && ks@ == kv.0 && vs@ == kv.1),
                },
            }
        }),
{
    let k0 = skip_ws_x(v, i);
    if k0 == v.len() || v[k0] == '\n' || v[k0] == '#' {
        return LineItem::Blank;
    }
    let k1 = skip_key_x(v, k0);
    if k1 == k0 {
        return LineItem::Malformed;
    }
    let q0 = skip_ws_x(v, k1);
    if q0 == v.len() || v[q0] != '=' {
        return LineItem::Malformed;
    }
    let v0 = skip_ws_x(v, q0 + 1);
    if v0 == v.len() || v[v0] != '"' {
        return LineItem::Malformed;
    }
    let v1 = scan_value_x(v, v0 + 1);
    if v1 == v.len() || v[v1] == '\n' {
        return LineItem::Malformed;
    }
    let t0 = skip_ws_x(v, v1 + 1);
    if !(t0 == v.len() || v[t0] == '\n' || v[t0] == '#') {
        return LineItem::Malformed;
    }
    let key = chars_range_string(v, k0, k1);
    let val = chars_range_string(v, v0 + 1, v1);
    LineItem::Entry(key, val)
}

/// Parse a whole key/value document: one optional `key = "value"` entry
/// per line, with whitespace padding and `#` comments. Nothing is
/// returned if any line is malformed.
pub fn parse_kv_text(text: &str) -> (r: Option<Vec<(String, String)>>)
    ensures
        ({
            match parse_doc(text@, 0) {
                None => r is None,
                Some(doc) => (r matches Some(d) && doc_view(d@) == doc),
            }
        }),
{
    let v = str_chars(text);
    let mut out: Vec<(String, String)> = Vec::new();
    let mut i: usize = 0;
    while i < v.len()
        invariant
            v@ == text@,
            i <= v.len(),
            ({
                match parse_doc(v@, i as int) {
                    None => parse_doc(v@, 0) is None,
                    Some(rest) => (parse_doc(v@, 0) matches Some(whole) && whole == doc_view(out@)
                        + rest),
                }
            }),
        decreases v.len() - i,
    {
        let item = parse_line_x(&v, i);
        let e = line_end_x(&v, i);
        match item {
            LineItem::Malformed => {
                return None;
            },
            LineItem::Blank => {
                proof {
                    assert(doc_view(out@) + Seq::<(Seq<char>, Seq<char>)>::empty() =~= doc_view(
                        out@,
                    ));
                }
            },
            LineItem::Entry(ks, vs) => {
                proof {
                    let kv = parse_line(v@, i as int)->Some_0->Some_0;
                    assert(doc_view(out@.push((ks, vs))) =~= doc_view(out@) + seq![kv]);
                    if parse_doc(v@, i as int) is Some {
                        let rest = parse_doc(v@, i as int)->Some_0;
                        let e_sp = line_end(v@, i as int);
                        let tail = if e_sp >= v@.len() {
                            Seq::<(Seq<char>, Seq<char>)>::empty()
                        } else {
                            parse_doc(v@, e_sp + 1)->Some_0
                        };
                        assert(rest == seq![kv] + tail);
                        assert(doc_view(out@) + rest =~= doc_view(out@.push((ks, vs))) + tail);
                    }
                }
                out.push((ks, vs));
            },
        }
        if e == v.len() {
            i = e;
        } else {
            i = e + 1;
        }
    }
    proof {
        assert(parse_doc(v@, i as int) == Some(Seq::<(Seq<char>, Seq<char>)>::empty()));
        if parse_doc(v@, 0) is Some {
            assert(doc_view(out@) + Seq::<(Seq<char>, Seq<char>)>::empty() =~= doc_view(out@));
        }
    }
    Some(out)
}

/// Find the value entered under a key, if the document holds one.
pub fn lookup_value(doc: &Vec<(String, String)>, key: &String) -> (r: Option<String>)
    ensures
        ({
            match lookup(doc_view(doc@), key@) {
                None => r is None,
                Some(val) => (r matches Some(s) && s@ == val),
            }
        }),
{
    let ghost dv = doc_view(doc@);
    let mut i: usize = 0;
    while i < doc.len()
        invariant
            i <= doc.len(),
            dv == doc_view(doc@),
            lookup(dv, key@) == lookup_at(dv, key@, i as int),
        decreases doc.len() - i,
    {
        proof {
            assert(dv[i as int] == (doc@[i as int].0@, doc@[i as int].1@));
        }
        if doc[i].0 == *key {
            return Some(doc[i].1.clone());
        }
        i = i + 1;
    }
    None
}

} // verus!
