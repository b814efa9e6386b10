//! Removal of stream keys and passwords from any text that may reach a log or
//! the user interface.
use vstd::prelude::*;
use crate::text::{is_ws, is_whitespace, occurs_at, find_from, find_seq, chars_of, extend_range, push_str, string_from_chars};

verus! {

/// The text that stands in for a removed secret.
pub open spec fn redacted() -> Seq<char> {
    seq!['[', 'R', 'E', 'D', 'A', 'C', 'T', 'E', 'D', ']']
}

/// `char::to_ascii_lowercase`.
pub open spec fn lower(c: char) -> char {
    if 'A' <= c && c <= 'Z' {
        ((c as u32) + 32) as char
    } else {
        c
    }
}

pub fn to_ascii_lower(c: char) -> (r: char)
    ensures
        r == lower(c),
{
    if 'A' <= c && c <= 'Z' {
        let b: u8 = c as u8;
        (b + 32) as char
    } else {
        c
    }
}

/// `marker` occurs at `i` when `hay` is read with ASCII letters lowercased.
pub open spec fn occurs_at_ci(hay: Seq<char>, marker: Seq<char>, i: int) -> bool {
    &&& 0 <= i
    &&& i + marker.len() <= hay.len()
    &&& forall|k: int| 0 <= k < marker.len() ==> lower(#[trigger] hay[i + k]) == marker[k]
}

/// First case-insensitive occurrence of `marker` at or after `from`.
pub open spec fn find_ci(hay: Seq<char>, marker: Seq<char>, from: int) -> Option<int>
    decreases hay.len() - from,
{
    if from < 0 || from + marker.len() > hay.len() {
        None
    } else if occurs_at_ci(hay, marker, from) {
        Some(from)
    } else {
        find_ci(hay, marker, from + 1)
    }
}

/// End of a `key=value` secret: the first whitespace or `&` at or after `from`.
pub open spec fn secret_end(s: Seq<char>, from: int) -> int
    decreases s.len() - from,
{
    if from < 0 || from >= s.len() {
        s.len() as int
    } else if is_ws(s[from]) || s[from] == '&' {
        from
    } else {
        secret_end(s, from + 1)
    }
}

/// Characters that end a URL inside free text.
pub open spec fn url_stop(c: char) -> bool {
    is_ws(c) || c == '\'' || c == '"' || c == '\\' || c == ')' || c == ']' || c == '}'
}

/// End of the URL whose characters continue from `from`.
pub open spec fn url_end(s: Seq<char>, from: int) -> int
    decreases s.len() - from,
{
    if from < 0 || from >= s.len() {
        s.len() as int
    } else if url_stop(s[from]) {
        from
    } else {
        url_end(s, from + 1)
    }
}

/// First `#` in `s[from..to]`.
pub open spec fn find_hash(s: Seq<char>, from: int, to: int) -> Option<int>
    decreases to - from,
{
    if from < 0 || from >= to || from >= s.len() {
        None
    } else if s[from] == '#' {
        Some(from)
    } else {
        find_hash(s, from + 1, to)
    }
}

/// `s` with `s[start..end]` replaced by the redaction mark.
pub open spec fn splice(s: Seq<char>, start: int, end: int) -> Seq<char> {
    s.subrange(0, start) + redacted() + s.subrange(end, s.len() as int)
}

proof fn lemma_secret_end_bounds(s: Seq<char>, from: int)
    requires
        0 <= from <= s.len(),
    ensures
        from <= secret_end(s, from) <= s.len(),
    decreases s.len() - from,
{
    if from < s.len() && !(is_ws(s[from]) || s[from] == '&') {
        lemma_secret_end_bounds(s, from + 1);
    }
}

proof fn lemma_url_end_bounds(s: Seq<char>, from: int)
    requires
        0 <= from <= s.len(),
    ensures
        from <= url_end(s, from) <= s.len(),
    decreases s.len() - from,
{
    if from < s.len() && !url_stop(s[from]) {
        lemma_url_end_bounds(s, from + 1);
    }
}

proof fn lemma_find_ci_bounds(s: Seq<char>, m: Seq<char>, from: int)
    requires
        find_ci(s, m, from) is Some,
    ensures
        from <= find_ci(s, m, from)->0,
        find_ci(s, m, from)->0 + m.len() <= s.len(),
    decreases s.len() - from,
{
    if from < 0 || from + m.len() > s.len() {
    } else if occurs_at_ci(s, m, from) {
    } else {
        lemma_find_ci_bounds(s, m, from + 1);
    }
}

proof fn lemma_find_hash_bounds(s: Seq<char>, from: int, to: int)
    requires
        find_hash(s, from, to) is Some,
    ensures
        from <= find_hash(s, from, to)->0 < to,
        find_hash(s, from, to)->0 < s.len(),
    decreases to - from,
{
    if from < 0 || from >= to || from >= s.len() {
    } else if s[from] == '#' {
    } else {
        lemma_find_hash_bounds(s, from + 1, to);
    }
}

proof fn lemma_find_from_bounds(s: Seq<char>, m: Seq<char>, from: int)
    requires
        find_from(s, m, from) is Some,
    ensures
        from <= find_from(s, m, from)->0,
        find_from(s, m, from)->0 + m.len() <= s.len(),
    decreases s.len() - from,
{
    if from < 0 || from + m.len() > s.len() {
    } else if occurs_at(s, m, from) {
    } else {
        lemma_find_from_bounds(s, m, from + 1);
    }
}

/// Every case-insensitive `marker` from `from` on has the value behind it
/// (up to whitespace or `&`) replaced by the redaction mark; the search goes
/// on after each mark.
pub open spec fn redact_marker(s: Seq<char>, marker: Seq<char>, from: int) -> Seq<char>
    decreases s.len() - from,
{
    if marker.len() == 0 || from < 0 || from > s.len() {
        s
    } else {
        match find_ci(s, marker, from) {
            None => s,
            Some(i) => {
                let start = i + marker.len();
                let end = secret_end(s, start);
                if start <= end <= s.len() && from <= i {
                    redact_marker(splice(s, start, end), marker, start + redacted().len())
                } else {
                    s
                }
            },
        }
    }
}

/// Every `scheme` URL from `from` on that carries a `#fragment` has the
/// fragment replaced by the redaction mark.
pub open spec fn redact_scheme(s: Seq<char>, scheme: Seq<char>, from: int) -> Seq<char>
    decreases s.len() - from,
{
    if scheme.len() == 0 || from < 0 || from > s.len() {
        s
    } else {
        match find_from(s, scheme, from) {
            None => s,
            Some(i) => {
                let stop = url_end(s, i + 1);
                if from <= i && i + 1 <= stop <= s.len() {
                    match find_hash(s, i, stop) {
                        None => redact_scheme(s, scheme, stop),
                        Some(h) => if i <= h < stop {
                            redact_scheme(splice(s, h + 1, stop), scheme, h + 1 + redacted().len())
                        } else {
                            s
                        },
                    }
                } else {
                    s
                }
            },
        }
    }
}

pub open spec fn marker_stream_key() -> Seq<char> {
    seq!['s', 't', 'r', 'e', 'a', 'm', '_', 'k', 'e', 'y', '=']
}

pub open spec fn marker_key() -> Seq<char> {
    seq!['k', 'e', 'y', '=']
}

pub open spec fn marker_password() -> Seq<char> {
    seq!['p', 'a', 's', 's', 'w', 'o', 'r', 'd', '=']
}

pub open spec fn marker_pass() -> Seq<char> {
    seq!['p', 'a', 's', 's', '=']
}

pub open spec fn scheme_rtmp() -> Seq<char> {
    seq!['r', 't', 'm', 'p', ':', '/', '/']
}

pub open spec fn scheme_rtmps() -> Seq<char> {
    seq!['r', 't', 'm', 'p', 's', ':', '/', '/']
}

/// The redaction of a whole text: the `stream_key=`, `key=`, `password=` and
/// `pass=` values, then the `#` fragments of `rtmp://` and `rtmps://` URLs.
pub open spec fn spec_redact(s: Seq<char>) -> Seq<char> {
    let a = redact_marker(s, marker_stream_key(), 0);
    let b = redact_marker(a, marker_key(), 0);
    let c = redact_marker(b, marker_password(), 0);
    let d = redact_marker(c, marker_pass(), 0);
    let e = redact_scheme(d, scheme_rtmp(), 0);
    redact_scheme(e, scheme_rtmps(), 0)
}

fn matches_ci_at(hay: &Vec<char>, marker: &Vec<char>, i: usize) -> (b: bool)
    ensures
        b == occurs_at_ci(hay@, marker@, i as int),
{
    if i > hay.len() || marker.len() > hay.len() - i {
        return false;
    }
    let mut k: usize = 0;
    while k < marker.len()
        invariant
            i + marker.len() <= hay.len(),
            k <= marker.len(),
            forall|j: int| 0 <= j < k ==> lower(#[trigger] hay@[i + j]) == marker@[j],
        decreases marker@.len() - k,
    {
        if to_ascii_lower(hay[i + k]) != marker[k] {
            return false;
        }
        k = k + 1;
    }
    true
}

fn find_ci_exec(hay: &Vec<char>, marker: &Vec<char>, from: usize) -> (r: Option<usize>)
    ensures
        r matches Some(i) ==> find_ci(hay@, marker@, from as int) == Some(i as int),
        r is None ==> find_ci(hay@, marker@, from as int) is None,
{
    let mut i = from;
    while i <= hay.len() && marker.len() <= hay.len() - i
        invariant
            from <= i,
            find_ci(hay@, marker@, from as int) == find_ci(hay@, marker@, i as int),
        decreases hay@.len() + 1 - i,
    {
        if matches_ci_at(hay, marker, i) {
            return Some(i);
        }
        i = i + 1;
    }
    None
}

fn secret_end_exec(s: &Vec<char>, from: usize) -> (r: usize)
    requires
        from <= s@.len(),
    ensures
        r == secret_end(s@, from as int),
{
    let mut i = from;
    while i < s.len() && !(is_whitespace(s[i]) || s[i] == '&')
        invariant
            from <= i <= s@.len(),
            secret_end(s@, from as int) == secret_end(s@, i as int),
        decreases s@.len() - i,
    {
        i = i + 1;
    }
    i
}

fn url_end_exec(s: &Vec<char>, from: usize) -> (r: usize)
    requires
        from <= s@.len(),
    ensures
        r == url_end(s@, from as int),
{
    let mut i = from;
    while i < s.len() && !(is_whitespace(s[i]) || s[i] == '\'' || s[i] == '"' || s[i] == '\\'
        || s[i] == ')' || s[i] == ']' || s[i] == '}')
        invariant
            from <= i <= s@.len(),
            url_end(s@, from as int) == url_end(s@, i as int),
        decreases s@.len() - i,
    {
        i = i + 1;
    }
    i
}

fn find_hash_exec(s: &Vec<char>, from: usize, to: usize) -> (r: Option<usize>)
    requires
        from <= to <= s@.len(),
    ensures
        r matches Some(h) ==> find_hash(s@, from as int, to as int) == Some(h as int),
        r is None ==> find_hash(s@, from as int, to as int) is None,
{
    let mut i = from;
    while i < to
        invariant
            from <= i <= to <= s@.len(),
            find_hash(s@, from as int, to as int) == find_hash(s@, i as int, to as int),
        decreases to - i,
    {
        if s[i] == '#' {
            return Some(i);
        }
        i = i + 1;
    }
    None
}

fn redaction_mark() -> (v: Vec<char>)
    ensures
        v@ == redacted(),
{
    let v = vec!['[', 'R', 'E', 'D', 'A', 'C', 'T', 'E', 'D', ']'];
    assert(v@ =~= redacted());
    v
}

/// `s[..start] + [REDACTED] + s[end..]`
fn splice_exec(s: &Vec<char>, start: usize, end: usize) -> (r: Vec<char>)
    requires
        start <= end <= s@.len(),
    ensures
        r@ == splice(s@, start as int, end as int),
{
    let mut out: Vec<char> = Vec::new();
    extend_range(&mut out, s, 0, start);
    let mark = redaction_mark();
    extend_range(&mut out, &mark, 0, mark.len());
    extend_range(&mut out, s, end, s.len());
    assert(mark@.subrange(0, mark@.len() as int) =~= mark@);
    assert(out@ =~= splice(s@, start as int, end as int));
    out
}

fn redact_marker_exec(s: Vec<char>, marker: &Vec<char>) -> (r: Vec<char>)
    requires
        marker@.len() > 0,
    ensures
        r@ == redact_marker(s@, marker@, 0),
{
    let mut out = s;
    let mut search_from: usize = 0;
    let ghost target = redact_marker(out@, marker@, 0);
    loop
        invariant
            marker@.len() > 0,
            search_from <= out@.len(),
            redact_marker(out@, marker@, search_from as int) == target,
            target == redact_marker(s@, marker@, 0),
        decreases out@.len() - search_from,
    {
        match find_ci_exec(&out, marker, search_from) {
            None => {
                return out;
            },
            Some(i) => {
                proof {
                    lemma_find_ci_bounds(out@, marker@, search_from as int);
                }
                let n = out.len();
                assert(i + marker@.len() <= n);
                let start = i + marker.len();
                proof {
                    lemma_secret_end_bounds(out@, start as int);
                }
                let end = secret_end_exec(&out, start);
                let next = splice_exec(&out, start, end);
                let nn = next.len();
                assert(nn == start + 10 + (out@.len() - end));
                search_from = start + 10;
                out = next;
            },
        }
    }
}

fn redact_scheme_exec(s: Vec<char>, scheme: &Vec<char>) -> (r: Vec<char>)
    requires
        scheme@.len() > 0,
    ensures
        r@ == redact_scheme(s@, scheme@, 0),
{
    let mut out = s;
    let mut search_from: usize = 0;
    let ghost target = redact_scheme(out@, scheme@, 0);
    loop
        invariant
            scheme@.len() > 0,
            search_from <= out@.len(),
            redact_scheme(out@, scheme@, search_from as int) == target,
            target == redact_scheme(s@, scheme@, 0),
        decreases out@.len() - search_from,
    {
        match find_seq(&out, scheme, search_from) {
            None => {
                return out;
            },
            Some(i) => {
                proof {
                    lemma_find_from_bounds(out@, scheme@, search_from as int);
                    lemma_url_end_bounds(out@, i + 1);
                }
                let n = out.len();
                assert(i + scheme@.len() <= n);
                let stop = url_end_exec(&out, i + 1);
                match find_hash_exec(&out, i, stop) {
                    None => {
                        search_from = stop;
                    },
                    Some(h) => {
                        proof {
                            lemma_find_hash_bounds(out@, i as int, stop as int);
                        }
                        let next = splice_exec(&out, h + 1, stop);
                        let nn = next.len();
                        assert(nn == h + 1 + 10 + (out@.len() - stop));
                        search_from = h + 1 + 10;
                        out = next;
                    },
                }
            },
        }
    }
}

/// Removes stream keys, passwords and URL key fragments from `input`.
pub fn redact_secrets(input: &str) -> (output: String)
    ensures
        output@ == spec_redact(input@),
{
    let s = chars_of(input);
    let mut m: Vec<char> = Vec::new();
    push_str(&mut m, "stream_key=");
    proof { reveal_strlit("stream_key="); }
    assert(m@ =~= marker_stream_key());
    let a = redact_marker_exec(s, &m);
    let mut m: Vec<char> = Vec::new();
    push_str(&mut m, "key=");
    proof { reveal_strlit("key="); }
    assert(m@ =~= marker_key());
    let b = redact_marker_exec(a, &m);
    let mut m: Vec<char> = Vec::new();
    push_str(&mut m, "password=");
    proof { reveal_strlit("password="); }
    assert(m@ =~= marker_password());
    let c = redact_marker_exec(b, &m);
    let mut m: Vec<char> = Vec::new();
    push_str(&mut m, "pass=");
    proof { reveal_strlit("pass="); }
    assert(m@ =~= marker_pass());
    let d = redact_marker_exec(c, &m);
    let mut m: Vec<char> = Vec::new();
    push_str(&mut m, "rtmp://");
    proof { reveal_strlit("rtmp://"); }
    assert(m@ =~= scheme_rtmp());
    let e = redact_scheme_exec(d, &m);
    let mut m: Vec<char> = Vec::new();
    push_str(&mut m, "rtmps://");
    proof { reveal_strlit("rtmps://"); }
    assert(m@ =~= scheme_rtmps());
    let f = redact_scheme_exec(e, &m);
    string_from_chars(&f)
}


proof fn lemma_find_hash_none(s: Seq<char>, from: int, to: int)
    requires
        forall|k: int| 0 <= k < s.len() ==> s[k] != '#',
    ensures
        find_hash(s, from, to) is None,
    decreases to - from,
{
    if !(from < 0 || from >= to || from >= s.len()) {
        lemma_find_hash_none(s, from + 1, to);
    }
}

proof fn lemma_scheme_without_fragment(s: Seq<char>, scheme: Seq<char>, from: int)
    requires
        forall|k: int| 0 <= k < s.len() ==> s[k] != '#',
    ensures
        redact_scheme(s, scheme, from) == s,
    decreases s.len() - from,
{
    if scheme.len() == 0 || from < 0 || from > s.len() {
    } else {
        match find_from(s, scheme, from) {
            None => {},
            Some(i) => {
                lemma_find_from_bounds(s, scheme, from);
                let stop = url_end(s, i + 1);
                if from <= i && i + 1 <= stop <= s.len() {
                    lemma_find_hash_none(s, i, stop);
                    lemma_scheme_without_fragment(s, scheme, stop);
                }
            },
        }
    }
}

/// Text with none of the markers (in any letter case) and no `#` comes
/// back unchanged: redaction touches only what follows a marker and the
/// fragment of an RTMP URL.
pub proof fn law_redact_leaves_plain_text(s: Seq<char>)
    requires
        find_ci(s, marker_stream_key(), 0) is None,
        find_ci(s, marker_key(), 0) is None,
        find_ci(s, marker_password(), 0) is None,
        find_ci(s, marker_pass(), 0) is None,
        forall|k: int| 0 <= k < s.len() ==> s[k] != '#',
    ensures
        spec_redact(s) == s,
{
    lemma_scheme_without_fragment(s, scheme_rtmp(), 0);
    lemma_scheme_without_fragment(s, scheme_rtmps(), 0);
}

/// The occurrence of `marker` at `j` is directly followed by the redaction mark.
pub open spec fn followed_by_mark(t: Seq<char>, marker: Seq<char>, j: int) -> bool {
    &&& 0 <= j
    &&& j + marker.len() + redacted().len() <= t.len()
    &&& t.subrange(j + marker.len(), j + marker.len() + redacted().len()) == redacted()
}

/// Every case-insensitive occurrence of each of `markers` in `t` is directly
/// followed by the redaction mark.
pub open spec fn markers_hidden(t: Seq<char>, markers: Seq<Seq<char>>) -> bool {
    forall|k: int, j: int|
        0 <= k < markers.len() && #[trigger] occurs_at_ci(t, markers[k], j) ==> followed_by_mark(
            t,
            markers[k],
            j,
        )
}

/// The occurrences of `marker` before `bound` are followed by the mark.
spec fn hidden_before(t: Seq<char>, marker: Seq<char>, bound: int) -> bool {
    forall|j: int| #[trigger] occurs_at_ci(t, marker, j) && j < bound ==> followed_by_mark(t, marker, j)
}

/// A marker ends in `=` and holds no bracket.
spec fn marker_shape(m: Seq<char>) -> bool {
    &&& m.len() > 0
    &&& m[m.len() - 1] == '='
    &&& forall|k: int| 0 <= k < m.len() ==> #[trigger] m[k] != '[' && m[k] != ']'
}

proof fn lemma_lower_keeps(c: char)
    ensures
        lower(c) == '=' ==> c == '=',
        c == '[' ==> lower(c) == '[',
        c == ']' ==> lower(c) == ']',
{
    if 'A' <= c && c <= 'Z' {
        let x: u32 = ((c as u32) + 32) as u32;
        assert(65 <= c as u32 <= 90);
        assert(97 <= x <= 122);
        assert((x as char) as u32 == x);
    }
}

proof fn lemma_mark_chars()
    ensures
        redacted().len() == 10,
        redacted()[0] == '[',
        redacted()[9] == ']',
        forall|k: int| 0 <= k < 10 ==> lower(#[trigger] redacted()[k]) != '=',
        forall|k: int| 0 <= k < 10 ==> #[trigger] redacted()[k] != '=' && redacted()[k] != '#',
{
    assert forall|k: int| 0 <= k < 10 implies lower(#[trigger] redacted()[k]) != '=' by {
        lemma_lower_keeps(redacted()[k]);
    }
}

proof fn lemma_find_ci_first(s: Seq<char>, m: Seq<char>, from: int)
    requires
        0 <= from,
    ensures
        find_ci(s, m, from) is None ==> forall|j: int| from <= j ==> !#[trigger] occurs_at_ci(s, m, j),
        find_ci(s, m, from) matches Some(i) ==> occurs_at_ci(s, m, i) && forall|j: int|
            from <= j < i ==> !#[trigger] occurs_at_ci(s, m, j),
    decreases s.len() - from,
{
    if from + m.len() > s.len() {
    } else if occurs_at_ci(s, m, from) {
    } else {
        lemma_find_ci_first(s, m, from + 1);
    }
}

proof fn lemma_find_hash_is_hash(s: Seq<char>, from: int, to: int)
    requires
        find_hash(s, from, to) is Some,
    ensures
        s[find_hash(s, from, to)->0] == '#',
    decreases to - from,
{
    if from < 0 || from >= to || from >= s.len() {
    } else if s[from] == '#' {
    } else {
        lemma_find_hash_is_hash(s, from + 1, to);
    }
}

/// Where an occurrence of a marker in a spliced text comes from: it ends at
/// the mark, lies wholly before it, or lies wholly after it.
proof fn lemma_splice_occurrence(s: Seq<char>, start: int, end: int, m: Seq<char>, j: int)
    requires
        0 <= start <= end <= s.len(),
        marker_shape(m),
        occurs_at_ci(splice(s, start, end), m, j),
    ensures
        j + m.len() == start || (j + m.len() < start && occurs_at_ci(s, m, j)) || (j >= start + 10
            && occurs_at_ci(s, m, j - start - 10 + end)),
{
    let t = splice(s, start, end);
    lemma_mark_chars();
    assert(t.len() == start + 10 + s.len() - end);
    assert forall|x: int| 0 <= x < start implies t[x] == s[x] by {}
    assert forall|x: int| start <= x < start + 10 implies t[x] == redacted()[x - start] by {}
    assert forall|x: int| start + 10 <= x < t.len() implies t[x] == s[x - start - 10 + end] by {}
    if j + m.len() < start {
        assert forall|k: int| 0 <= k < m.len() implies lower(#[trigger] s[j + k]) == m[k] by {
            assert(lower(t[j + k]) == m[k]);
        }
    } else if j + m.len() == start {
    } else if j < start {
        let k0 = start - j;
        assert(lower(t[j + k0]) == m[k0]);
        lemma_lower_keeps(t[start]);
        assert(m[k0] != '[');
    } else if j < start + 10 {
        if j + m.len() > start + 10 {
            let k0 = start + 9 - j;
            assert(lower(t[j + k0]) == m[k0]);
            lemma_lower_keeps(t[start + 9]);
            assert(m[k0] != ']');
        } else {
            let k0 = m.len() - 1;
            assert(lower(t[j + k0]) == m[k0]);
            assert(lower(redacted()[j + k0 - start]) != '=');
        }
    } else {
        let j2 = j - start - 10 + end;
        assert forall|k: int| 0 <= k < m.len() implies lower(#[trigger] s[j2 + k]) == m[k] by {
            assert(lower(t[j + k]) == m[k]);
        }
    }
}

/// Splicing the mark in after a `=` or `#` keeps every marker that was
/// followed by the mark so followed.
proof fn lemma_splice_hides(s: Seq<char>, start: int, end: int, ms: Seq<Seq<char>>)
    requires
        1 <= start <= end <= s.len(),
        s[start - 1] == '=' || s[start - 1] == '#',
        forall|k: int| 0 <= k < ms.len() ==> marker_shape(#[trigger] ms[k]),
        markers_hidden(s, ms),
    ensures
        markers_hidden(splice(s, start, end), ms),
{
    let t = splice(s, start, end);
    lemma_mark_chars();
    assert forall|k: int, j: int|
        0 <= k < ms.len() && #[trigger] occurs_at_ci(t, ms[k], j) implies followed_by_mark(t, ms[k], j) by {
        lemma_splice_occurrence(s, start, end, ms[k], j);
        if j >= start + 10 {
            assert(occurs_at_ci(s, ms[k], j - start - 10 + end));
        }
        lemma_splice_follows(s, start, end, ms[k], j);
    }
}

/// An occurrence in the spliced text that ends at the mark, or whose
/// counterpart in `s` is followed by the mark, is followed by the mark.
proof fn lemma_splice_follows(s: Seq<char>, start: int, end: int, m: Seq<char>, j: int)
    requires
        1 <= start <= end <= s.len(),
        s[start - 1] == '=' || s[start - 1] == '#',
        marker_shape(m),
        occurs_at_ci(splice(s, start, end), m, j),
        j + m.len() < start ==> followed_by_mark(s, m, j),
        j >= start + 10 ==> followed_by_mark(s, m, j - start - 10 + end),
    ensures
        followed_by_mark(splice(s, start, end), m, j),
{
    let t = splice(s, start, end);
    lemma_mark_chars();
    lemma_splice_occurrence(s, start, end, m, j);
    let p = j + m.len();
    if p == start {
        assert(t.subrange(p, p + 10) =~= redacted());
    } else if p < start {
        if p + 10 <= start {
            assert(t.subrange(p, p + 10) =~= s.subrange(p, p + 10));
        } else {
            assert(s.subrange(p, p + 10)[start - 1 - p] == s[start - 1]);
            assert(redacted()[start - 1 - p] != '=' && redacted()[start - 1 - p] != '#');
        }
    } else {
        let p2 = p - start - 10 + end;
        assert(t.subrange(p, p + 10) =~= s.subrange(p2, p2 + 10));
    }
}

proof fn lemma_marker_pass(s: Seq<char>, m: Seq<char>, from: int, ms: Seq<Seq<char>>)
    requires
        marker_shape(m),
        forall|k: int| 0 <= k < ms.len() ==> marker_shape(#[trigger] ms[k]),
        markers_hidden(s, ms),
        hidden_before(s, m, from),
        0 <= from <= s.len(),
    ensures
        markers_hidden(redact_marker(s, m, from), ms.push(m)),
    decreases s.len() - from,
{
    lemma_find_ci_first(s, m, from);
    match find_ci(s, m, from) {
        None => {
            assert forall|k: int, j: int|
                0 <= k < ms.push(m).len() && #[trigger] occurs_at_ci(s, ms.push(m)[k], j) implies followed_by_mark(
                s,
                ms.push(m)[k],
                j,
            ) by {
                if k < ms.len() {
                    assert(ms.push(m)[k] == ms[k]);
                } else {
                    assert(ms.push(m)[k] == m);
                }
            }
        },
        Some(i) => {
            lemma_find_ci_bounds(s, m, from);
            let start = i + m.len();
            lemma_secret_end_bounds(s, start);
            let end = secret_end(s, start);
            let t = splice(s, start, end);
            assert(lower(s[i + (m.len() - 1)]) == m[m.len() - 1]);
            lemma_lower_keeps(s[start - 1]);
            lemma_splice_hides(s, start, end, ms);
            lemma_mark_chars();
            assert forall|j: int| #[trigger] occurs_at_ci(t, m, j) && j < start + 10 implies followed_by_mark(
                t,
                m,
                j,
            ) by {
                lemma_splice_occurrence(s, start, end, m, j);
                if j + m.len() < start {
                    assert(j < i);
                    assert(j < from);
                }
                lemma_splice_follows(s, start, end, m, j);
            }
            lemma_marker_pass(t, m, start + 10, ms);
        },
    }
}

proof fn lemma_scheme_pass(s: Seq<char>, scheme: Seq<char>, from: int, ms: Seq<Seq<char>>)
    requires
        forall|k: int| 0 <= k < ms.len() ==> marker_shape(#[trigger] ms[k]),
        markers_hidden(s, ms),
        0 <= from <= s.len(),
    ensures
        markers_hidden(redact_scheme(s, scheme, from), ms),
    decreases s.len() - from,
{
    if scheme.len() > 0 {
        match find_from(s, scheme, from) {
            None => {},
            Some(i) => {
                lemma_find_from_bounds(s, scheme, from);
                lemma_url_end_bounds(s, i + 1);
                let stop = url_end(s, i + 1);
                match find_hash(s, i, stop) {
                    None => {
                        lemma_scheme_pass(s, scheme, stop, ms);
                    },
                    Some(h) => {
                        lemma_find_hash_bounds(s, i, stop);
                        lemma_find_hash_is_hash(s, i, stop);
                        lemma_splice_hides(s, h + 1, stop, ms);
                        lemma_mark_chars();
                        lemma_scheme_pass(splice(s, h + 1, stop), scheme, h + 1 + 10, ms);
                    },
                }
            },
        }
    }
}

/// No value is left behind a marker: in redacted text, every occurrence of
/// `stream_key=`, `key=`, `password=` or `pass=`, in any letter case, is
/// directly followed by `[REDACTED]`.
pub proof fn law_redact_hides_every_value(s: Seq<char>)
    ensures
        forall|j: int| #[trigger] occurs_at_ci(spec_redact(s), marker_stream_key(), j) ==> followed_by_mark(
            spec_redact(s),
            marker_stream_key(),
            j,
        ),
        forall|j: int| #[trigger] occurs_at_ci(spec_redact(s), marker_key(), j) ==> followed_by_mark(
            spec_redact(s),
            marker_key(),
            j,
        ),
        forall|j: int| #[trigger] occurs_at_ci(spec_redact(s), marker_password(), j) ==> followed_by_mark(
            spec_redact(s),
            marker_password(),
            j,
        ),
        forall|j: int| #[trigger] occurs_at_ci(spec_redact(s), marker_pass(), j) ==> followed_by_mark(
            spec_redact(s),
            marker_pass(),
            j,
        ),
{
    let m1 = marker_stream_key();
    let m2 = marker_key();
    let m3 = marker_password();
    let m4 = marker_pass();
    assert(marker_shape(m1));
    assert(marker_shape(m2));
    assert(marker_shape(m3));
    assert(marker_shape(m4));
    let ms0: Seq<Seq<char>> = Seq::empty();
    let a = redact_marker(s, m1, 0);
    lemma_marker_pass(s, m1, 0, ms0);
    let ms1 = ms0.push(m1);
    let b = redact_marker(a, m2, 0);
    lemma_marker_pass(a, m2, 0, ms1);
    let ms2 = ms1.push(m2);
    let c = redact_marker(b, m3, 0);
    lemma_marker_pass(b, m3, 0, ms2);
    let ms3 = ms2.push(m3);
    let d = redact_marker(c, m4, 0);
    lemma_marker_pass(c, m4, 0, ms3);
    let ms4 = ms3.push(m4);
    let e = redact_scheme(d, scheme_rtmp(), 0);
    lemma_scheme_pass(d, scheme_rtmp(), 0, ms4);
    lemma_scheme_pass(e, scheme_rtmps(), 0, ms4);
    let r = spec_redact(s);
    assert(ms4[0] == m1 && ms4[1] == m2 && ms4[2] == m3 && ms4[3] == m4);
    assert forall|j: int| #[trigger] occurs_at_ci(r, m1, j) implies followed_by_mark(r, m1, j) by {
        assert(occurs_at_ci(r, ms4[0], j));
    }
    assert forall|j: int| #[trigger] occurs_at_ci(r, m2, j) implies followed_by_mark(r, m2, j) by {
        assert(occurs_at_ci(r, ms4[1], j));
    }
    assert forall|j: int| #[trigger] occurs_at_ci(r, m3, j) implies followed_by_mark(r, m3, j) by {
        assert(occurs_at_ci(r, ms4[2], j));
    }
    assert forall|j: int| #[trigger] occurs_at_ci(r, m4, j) implies followed_by_mark(r, m4, j) by {
        assert(occurs_at_ci(r, ms4[3], j));
    }
}

} // verus!
