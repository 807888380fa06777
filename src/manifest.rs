//! Reading a project's name out of its manifest text, and out of its path.
use vstd::prelude::*;

use crate::text::{chars_of, has_prefix, occurs_at, occurs_at_exec};

verus! {

/// Whether `c` is white space in Unicode's sense (the `White_Space` property).
pub open spec fn is_ws(c: char) -> bool {
    ||| c == ' ' || c == '\t' || c == '\n' || c == '\r' || c == '\x0B' || c == '\x0C'
    ||| c == '\u{85}' || c == '\u{A0}' || c == '\u{1680}'
    ||| ('\u{2000}' <= c && c <= '\u{200A}')
    ||| c == '\u{2028}' || c == '\u{2029}' || c == '\u{202F}' || c == '\u{205F}' || c == '\u{3000}'
}

fn is_ws_exec(c: char) -> (r: bool)
    ensures
        r == is_ws(c),
{
    c == ' ' || c == '\t' || c == '\n' || c == '\r' || c == '\x0B' || c == '\x0C' || c == '\u{85}'
        || c == '\u{A0}' || c == '\u{1680}' || ('\u{2000}' <= c && c <= '\u{200A}') || c
        == '\u{2028}' || c == '\u{2029}' || c == '\u{202F}' || c == '\u{205F}' || c == '\u{3000}'
}

/// The first position at or after `i` that holds `c`, before `e`; `e` if none.
pub open spec fn find_char(s: Seq<char>, c: char, i: int, e: int) -> int
    decreases e - i,
{
    if i < e && s[i] != c {
        find_char(s, c, i + 1, e)
    } else {
        i
    }
}

/// The first position at or after `i`, before `e`, that is not white space.
pub open spec fn skip_ws(s: Seq<char>, i: int, e: int) -> int
    decreases e - i,
{
    if i < e && is_ws(s[i]) {
        skip_ws(s, i + 1, e)
    } else {
        i
    }
}

/// The end of `s[i..e]` once trailing white space is dropped.
pub open spec fn back_ws(s: Seq<char>, i: int, e: int) -> int
    decreases e - i,
{
    if i < e && is_ws(s[e - 1]) {
        back_ws(s, i, e - 1)
    } else {
        e
    }
}

/// Whether `c` is a quote character, `"` or `'`.
pub open spec fn is_quote(c: char) -> bool {
    c == '"' || c == '\''
}

/// `[a, b)` with at most one quote character dropped from the front and at
/// most one from the back.
pub open spec fn strip_quotes(s: Seq<char>, a: int, b: int) -> (int, int) {
    let a1 = if a < b && is_quote(s[a]) {
        a + 1
    } else {
        a
    };
    let b1 = if a1 < b && is_quote(s[b - 1]) {
        b - 1
    } else {
        b
    };
    (a1, b1)
}

/// The value of a `name = value` line whose trimmed text is `s[a..b]` and
/// whose first `=` is at `p`: the text up to the next `=`, trimmed, with a
/// single layer of quotes taken off: at most one quote character, `"` or `'`
/// alike, from each end.
pub open spec fn value_of(s: Seq<char>, p: int, b: int) -> Seq<char> {
    let q = find_char(s, '=', p + 1, b);
    let va = skip_ws(s, p + 1, q);
    let vb = back_ws(s, va, q);
    let t = strip_quotes(s, va, vb);
    s.subrange(t.0, t.1)
}

/// The package name declared in the manifest text `s` from the line that
/// starts at `start` on, where `in_pkg` tells whether that line lies in the
/// `[package]` section: the value of the first line of that section whose
/// trimmed text starts with `name` and holds an `=`.
pub open spec fn name_from(s: Seq<char>, start: int, in_pkg: bool) -> Option<Seq<char>>
    decreases s.len() - start,
{
    let e = find_char(s, '\n', start, s.len() as int);
    let a = skip_ws(s, start, e);
    let b = back_ws(s, a, e);
    let t = s.subrange(a, b);
    let next = if e + 1 > start {
        e + 1
    } else {
        start + 1
    };
    let more = start < next <= s.len() && e < s.len();
    if t == "[package]"@ {
        if more {
            name_from(s, next, true)
        } else {
            None
        }
    } else if t.len() > 0 && t[0] == '[' {
        if more {
            name_from(s, next, false)
        } else {
            None
        }
    } else if in_pkg && has_prefix(t, "name"@) && find_char(s, '=', a, b) < b {
        Some(value_of(s, find_char(s, '=', a, b), b))
    } else if more {
        name_from(s, next, in_pkg)
    } else {
        None
    }
}

/// The package name that the manifest text `s` declares, if any.
pub open spec fn declared_name(s: Seq<char>) -> Option<Seq<char>> {
    name_from(s, 0, false)
}

/// The end of `p[..e]` once trailing separators are dropped.
pub open spec fn trim_seps(p: Seq<char>, e: int) -> int
    decreases e,
{
    if e > 0 && p[e - 1] == '/' {
        trim_seps(p, e - 1)
    } else {
        e
    }
}

/// The start of the last component of `p[..e]`.
pub open spec fn seg_start(p: Seq<char>, e: int) -> int
    decreases e,
{
    if e > 0 && p[e - 1] != '/' {
        seg_start(p, e - 1)
    } else {
        e
    }
}

/// The last component of the path `p`, unless it is empty, `.` or `..`.
pub open spec fn base_name(p: Seq<char>) -> Option<Seq<char>> {
    let e = trim_seps(p, p.len() as int);
    let seg = p.subrange(seg_start(p, e), e);
    if seg.len() == 0 || seg == "."@ || seg == ".."@ {
        None
    } else {
        Some(seg)
    }
}

/// The name of a project: the one its manifest declares, else the last
/// component of its directory.
pub open spec fn project_name(manifest: Seq<char>, dir: Seq<char>) -> Option<Seq<char>> {
    match declared_name(manifest) {
        Some(n) => Some(n),
        None => base_name(dir),
    }
}

fn find_char_exec(s: &Vec<char>, c: char, i: usize, e: usize) -> (r: usize)
    requires
        i <= e <= s@.len(),
    ensures
        r == find_char(s@, c, i as int, e as int),
        i <= r <= e,
        r < e ==> s@[r as int] == c,
{
    let mut j = i;
    while j < e && s[j] != c
        invariant
            i <= j <= e <= s@.len(),
            find_char(s@, c, i as int, e as int) == find_char(s@, c, j as int, e as int),
        decreases e - j,
    {
        j = j + 1;
    }
    j
}

fn skip_ws_exec(s: &Vec<char>, i: usize, e: usize) -> (r: usize)
    requires
        i <= e <= s@.len(),
    ensures
        r == skip_ws(s@, i as int, e as int),
        i <= r <= e,
{
    let mut j = i;
    while j < e && is_ws_exec(s[j])
        invariant
            i <= j <= e <= s@.len(),
            skip_ws(s@, i as int, e as int) == skip_ws(s@, j as int, e as int),
        decreases e - j,
    {
        j = j + 1;
    }
    j
}

fn back_ws_exec(s: &Vec<char>, i: usize, e: usize) -> (r: usize)
    requires
        i <= e <= s@.len(),
    ensures
        r == back_ws(s@, i as int, e as int),
        i <= r <= e,
{
    let mut j = e;
    while j > i && is_ws_exec(s[j - 1])
        invariant
            i <= j <= e <= s@.len(),
            back_ws(s@, i as int, e as int) == back_ws(s@, i as int, j as int),
        decreases j - i,
    {
        j = j - 1;
    }
    j
}

fn strip_quotes_exec(s: &Vec<char>, a: usize, b: usize) -> (r: (usize, usize))
    requires
        a <= b <= s@.len(),
    ensures
        (r.0 as int, r.1 as int) == strip_quotes(s@, a as int, b as int),
        a <= r.0 <= r.1 <= b,
{
    let a1 = if a < b && (s[a] == '"' || s[a] == '\'') {
        a + 1
    } else {
        a
    };
    let b1 = if a1 < b && (s[b - 1] == '"' || s[b - 1] == '\'') {
        b - 1
    } else {
        b
    };
    (a1, b1)
}

/// Whether `s[a..b]` equals `lit`.
fn range_equals(s: &Vec<char>, a: usize, b: usize, lit: &Vec<char>) -> (r: bool)
    requires
        a <= b <= s@.len(),
    ensures
        r == (s@.subrange(a as int, b as int) == lit@),
{
    if b - a != lit.len() {
        return false;
    }
    let r = occurs_at_exec(s, lit, a);
    assert(r == (s@.subrange(a as int, b as int) =~= lit@));
    r
}

/// Whether `s[a..b]` starts with `lit`.
fn range_has_prefix(s: &Vec<char>, a: usize, b: usize, lit: &Vec<char>) -> (r: bool)
    requires
        a <= b <= s@.len(),
    ensures
        r == has_prefix(s@.subrange(a as int, b as int), lit@),
{
    if b - a < lit.len() {
        return false;
    }
    let r = occurs_at_exec(s, lit, a);
    assert(s@.subrange(a as int, b as int).subrange(0, lit@.len() as int) =~= s@.subrange(
        a as int,
        a + lit@.len(),
    ));
    r
}

/// The package name that the manifest text `content` declares, if any.
pub fn manifest_name(content: &str) -> (r: Option<String>)
    ensures
        match r {
            Some(n) => declared_name(content@) == Some(n@),
            None => declared_name(content@) is None,
        },
{
    let s = chars_of(content);
    let package_header = "[package]";
    let name_key = "name";
    proof {
        reveal_strlit("[package]");
        reveal_strlit("name");
    }
    let header = chars_of(package_header);
    let key = chars_of(name_key);
    let n = s.len();
    let mut start: usize = 0;
    let mut in_pkg = false;
    loop
        invariant
            s@ == content@,
            n == s@.len(),
            header@ == "[package]"@,
            key@ == "name"@,
            start <= n,
            declared_name(content@) == name_from(s@, start as int, in_pkg),
        decreases n - start,
    {
        let e = find_char_exec(&s, '\n', start, n);
        let a = skip_ws_exec(&s, start, e);
        let b = back_ws_exec(&s, a, e);
        let more = e < n;
        if range_equals(&s, a, b, &header) {
            if !more {
                return None;
            }
            in_pkg = true;
        } else if a < b && s[a] == '[' {
            if !more {
                return None;
            }
            in_pkg = false;
        } else {
            let p = find_char_exec(&s, '=', a, b);
            if in_pkg && range_has_prefix(&s, a, b, &key) && p < b {
                let q = find_char_exec(&s, '=', p + 1, b);
                let va = skip_ws_exec(&s, p + 1, q);
                let vb = back_ws_exec(&s, va, q);
                let t = strip_quotes_exec(&s, va, vb);
                let name = String::from_str(content.substring_char(t.0, t.1));
                return Some(name);
            }
            if !more {
                return None;
            }
        }
        start = e + 1;
    }
}

/// The last component of the path `path`, unless it is empty, `.` or `..`.
pub fn path_base_name(path: &str) -> (r: Option<String>)
    ensures
        match r {
            Some(n) => base_name(path@) == Some(n@),
            None => base_name(path@) is None,
        },
{
    let p = chars_of(path);
    let mut e = p.len();
    while e > 0 && p[e - 1] == '/'
        invariant
            p@ == path@,
            e <= p@.len(),
            trim_seps(path@, path@.len() as int) == trim_seps(path@, e as int),
        decreases e,
    {
        e = e - 1;
    }
    let mut b = e;
    while b > 0 && p[b - 1] != '/'
        invariant
            p@ == path@,
            b <= e <= p@.len(),
            seg_start(path@, e as int) == seg_start(path@, b as int),
        decreases b,
    {
        b = b - 1;
    }
    let dot = ".";
    let dotdot = "..";
    proof {
        reveal_strlit(".");
        reveal_strlit("..");
    }
    let one = chars_of(dot);
    let two = chars_of(dotdot);
    if b == e || range_equals(&p, b, e, &one) || range_equals(&p, b, e, &two) {
        return None;
    }
    Some(String::from_str(path.substring_char(b, e)))
}

/// The name of the project in directory `dir` whose manifest text is
/// `manifest`.
pub fn resolve_project_name(manifest: &str, dir: &str) -> (r: Option<String>)
    ensures
        match r {
            Some(n) => project_name(manifest@, dir@) == Some(n@),
            None => project_name(manifest@, dir@) is None,
        },
{
    match manifest_name(manifest) {
        Some(n) => Some(n),
        None => path_base_name(dir),
    }
}

} // verus!
