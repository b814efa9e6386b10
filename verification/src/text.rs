//! Character-level text helpers shared by the parsers, the argument builders
//! and the redaction of secrets. Text is handled as its sequence of Unicode
//! scalar values, which is what `str::chars` yields.
use vstd::prelude::*;

verus! {

/// The characters of an optional string.
pub open spec fn opt_view(o: Option<String>) -> Option<Seq<char>> {
    match o {
        Some(s) => Some(s@),
        None => None,
    }
}

/// `needle` occurs in `hay` starting at position `i`.
pub open spec fn occurs_at(hay: Seq<char>, needle: Seq<char>, i: int) -> bool {
    &&& 0 <= i
    &&& i + needle.len() <= hay.len()
    &&& hay.subrange(i, i + needle.len()) =~= needle
}

/// `needle` occurs somewhere in `hay`.
pub open spec fn seq_contains(hay: Seq<char>, needle: Seq<char>) -> bool {
    exists|i: int| occurs_at(hay, needle, i)
}

pub open spec fn starts_with(hay: Seq<char>, prefix: Seq<char>) -> bool {
    occurs_at(hay, prefix, 0)
}

pub open spec fn ends_with(hay: Seq<char>, suffix: Seq<char>) -> bool {
    occurs_at(hay, suffix, hay.len() - suffix.len())
}

/// The Unicode `White_Space` property, which is what `char::is_whitespace` tests.
pub open spec fn is_ws(c: char) -> bool {
    ||| ('\u{9}' <= c && c <= '\u{d}')
    ||| c == ' '
    ||| c == '\u{85}'
    ||| c == '\u{a0}'
    ||| c == '\u{1680}'
    ||| ('\u{2000}' <= c && c <= '\u{200a}')
    ||| c == '\u{2028}'
    ||| c == '\u{2029}'
    ||| c == '\u{202f}'
    ||| c == '\u{205f}'
    ||| c == '\u{3000}'
}

pub fn is_whitespace(c: char) -> (b: bool)
    ensures
        b == is_ws(c),
{
    ('\u{9}' <= c && c <= '\u{d}') || c == ' ' || c == '\u{85}' || c == '\u{a0}' || c
        == '\u{1680}' || ('\u{2000}' <= c && c <= '\u{200a}') || c == '\u{2028}' || c
        == '\u{2029}' || c == '\u{202f}' || c == '\u{205f}' || c == '\u{3000}'
}

/// The characters of a string, in order.
pub fn chars_of(s: &str) -> (v: Vec<char>)
    ensures
        v@ == s@,
{
    let n = s.unicode_len();
    let mut v: Vec<char> = Vec::new();
    let mut i: usize = 0;
    while i < n
        invariant
            n == s@.len(),
            i <= n,
            v@ =~= s@.subrange(0, i as int),
        decreases n - i,
    {
        v.push(s.get_char(i));
        i = i + 1;
    }
    v
}

/// Appends one character to a string (`String::push`).
#[verifier::external_body]
pub(crate) fn push_char(s: &mut String, c: char)
    ensures
        final(s)@ == old(s)@.push(c),
{
    s.push(c);
}

/// The string made of `v[from..to]`.
pub fn string_from_range(v: &Vec<char>, from: usize, to: usize) -> (s: String)
    requires
        from <= to <= v@.len(),
    ensures
        s@ == v@.subrange(from as int, to as int),
{
    let mut s = String::new();
    let mut i = from;
    while i < to
        invariant
            from <= i <= to <= v@.len(),
            s@ =~= v@.subrange(from as int, i as int),
        decreases to - i,
    {
        push_char(&mut s, v[i]);
        i = i + 1;
    }
    s
}

pub fn string_from_chars(v: &Vec<char>) -> (s: String)
    ensures
        s@ == v@,
{
    let s = string_from_range(v, 0, v.len());
    assert(v@.subrange(0, v@.len() as int) =~= v@);
    s
}

/// Appends `other[from..to]` to `v`.
pub fn extend_range(v: &mut Vec<char>, other: &Vec<char>, from: usize, to: usize)
    requires
        from <= to <= other@.len(),
    ensures
        final(v)@ == old(v)@ + other@.subrange(from as int, to as int),
{
    let ghost start = v@;
    let mut i = from;
    while i < to
        invariant
            from <= i <= to <= other@.len(),
            v@ =~= start + other@.subrange(from as int, i as int),
        decreases to - i,
    {
        v.push(other[i]);
        i = i + 1;
    }
}

pub fn extend_all(v: &mut Vec<char>, other: &Vec<char>)
    ensures
        final(v)@ == old(v)@ + other@,
{
    extend_range(v, other, 0, other.len());
    assert(other@.subrange(0, other@.len() as int) =~= other@);
}

/// Whether `needle` occurs in `hay` at position `i`.
pub fn matches_at(hay: &Vec<char>, needle: &Vec<char>, i: usize) -> (b: bool)
    ensures
        b == occurs_at(hay@, needle@, i as int),
{
    if i > hay.len() || needle.len() > hay.len() - i {
        return false;
    }
    let mut k: usize = 0;
    while k < needle.len()
        invariant
            i + needle.len() <= hay.len(),
            k <= needle.len(),
            forall|j: int| 0 <= j < k ==> hay@[i + j] == needle@[j],
        decreases needle@.len() - k,
    {
        if hay[i + k] != needle[k] {
            assert(hay@.subrange(i as int, i + needle@.len())[k as int] != needle@[k as int]);
            return false;
        }
        k = k + 1;
    }
    assert(hay@.subrange(i as int, i + needle@.len()) =~= needle@);
    true
}

/// First position at or after `from` where `needle` occurs.
pub open spec fn find_from(hay: Seq<char>, needle: Seq<char>, from: int) -> Option<int>
    decreases hay.len() - from,
{
    if from < 0 || from + needle.len() > hay.len() {
        None
    } else if occurs_at(hay, needle, from) {
        Some(from)
    } else {
        find_from(hay, needle, from + 1)
    }
}

pub proof fn lemma_find_from_found(hay: Seq<char>, needle: Seq<char>, from: int)
    requires
        find_from(hay, needle, from) is Some,
    ensures
        from <= find_from(hay, needle, from)->0,
        occurs_at(hay, needle, find_from(hay, needle, from)->0),
        forall|j: int| from <= j < find_from(hay, needle, from)->0 ==> !occurs_at(hay, needle, j),
    decreases hay.len() - from,
{
    if from < 0 || from + needle.len() > hay.len() {
    } else if occurs_at(hay, needle, from) {
    } else {
        lemma_find_from_found(hay, needle, from + 1);
    }
}

pub proof fn lemma_find_from_none(hay: Seq<char>, needle: Seq<char>, from: int)
    requires
        0 <= from,
        find_from(hay, needle, from) is None,
    ensures
        forall|j: int| from <= j ==> !occurs_at(hay, needle, j),
    decreases hay.len() - from,
{
    if from + needle.len() > hay.len() {
    } else {
        lemma_find_from_none(hay, needle, from + 1);
    }
}

pub proof fn lemma_contains_is_find(hay: Seq<char>, needle: Seq<char>)
    ensures
        seq_contains(hay, needle) == (find_from(hay, needle, 0) is Some),
{
    if find_from(hay, needle, 0) is Some {
        lemma_find_from_found(hay, needle, 0);
    } else {
        lemma_find_from_none(hay, needle, 0);
    }
}

/// Exec search: the first occurrence of `needle` at or after `from`.
pub fn find_seq(hay: &Vec<char>, needle: &Vec<char>, from: usize) -> (r: Option<usize>)
    ensures
        r matches Some(i) ==> find_from(hay@, needle@, from as int) == Some(i as int),
        r is None ==> find_from(hay@, needle@, from as int) is None,
{
    let mut i = from;
    while i <= hay.len() && needle.len() <= hay.len() - i
        invariant
            from <= i,
            find_from(hay@, needle@, from as int) == find_from(hay@, needle@, i as int),
        decreases hay@.len() + 1 - i,
    {
        if matches_at(hay, needle, i) {
            return Some(i);
        }
        i = i + 1;
    }
    None
}

pub fn contains(hay: &str, needle: &str) -> (b: bool)
    ensures
        b == seq_contains(hay@, needle@),
{
    let h = chars_of(hay);
    let n = chars_of(needle);
    proof {
        lemma_contains_is_find(hay@, needle@);
    }
    find_seq(&h, &n, 0).is_some()
}

pub fn has_prefix(hay: &str, prefix: &str) -> (b: bool)
    ensures
        b == starts_with(hay@, prefix@),
{
    let h = chars_of(hay);
    let p = chars_of(prefix);
    matches_at(&h, &p, 0)
}

pub fn has_suffix(hay: &str, suffix: &str) -> (b: bool)
    ensures
        b == ends_with(hay@, suffix@),
{
    let h = chars_of(hay);
    let p = chars_of(suffix);
    if p.len() > h.len() {
        return false;
    }
    matches_at(&h, &p, h.len() - p.len())
}

/// Index of the first whitespace-free character at or after `from`
/// (the length when there is none).
pub open spec fn skip_ws(s: Seq<char>, from: int) -> int
    decreases s.len() - from,
{
    if from >= s.len() || from < 0 {
        from
    } else if is_ws(s[from]) {
        skip_ws(s, from + 1)
    } else {
        from
    }
}

/// One past the last non-whitespace character before `to`.
pub open spec fn skip_ws_back(s: Seq<char>, from: int, to: int) -> int
    decreases to - from,
{
    if to <= from {
        to
    } else if is_ws(s[to - 1]) {
        skip_ws_back(s, from, to - 1)
    } else {
        to
    }
}

/// `str::trim`: the text without leading and trailing whitespace.
pub open spec fn trim(s: Seq<char>) -> Seq<char> {
    let a = skip_ws(s, 0);
    s.subrange(a, skip_ws_back(s, a, s.len() as int))
}

pub open spec fn trim_end(s: Seq<char>) -> Seq<char> {
    s.subrange(0, skip_ws_back(s, 0, s.len() as int))
}

proof fn lemma_skip_ws_bounds(s: Seq<char>, from: int)
    requires
        0 <= from <= s.len(),
    ensures
        from <= skip_ws(s, from) <= s.len(),
    decreases s.len() - from,
{
    if from < s.len() && is_ws(s[from]) {
        lemma_skip_ws_bounds(s, from + 1);
    }
}

proof fn lemma_skip_ws_back_bounds(s: Seq<char>, from: int, to: int)
    requires
        0 <= from <= to <= s.len(),
    ensures
        from <= skip_ws_back(s, from, to) <= to,
    decreases to - from,
{
    if to > from && is_ws(s[to - 1]) {
        lemma_skip_ws_back_bounds(s, from, to - 1);
    }
}

/// Exec `trim` over a character vector: the bounds of the trimmed range.
pub fn trim_bounds(v: &Vec<char>, from: usize, to: usize) -> (r: (usize, usize))
    requires
        from <= to <= v@.len(),
    ensures
        r.0 == skip_ws(v@.subrange(from as int, to as int), 0) + from,
        r.1 == skip_ws_back(v@.subrange(from as int, to as int), r.0 - from, to - from) + from,
        from <= r.0 <= r.1 <= to,
{
    let ghost s = v@.subrange(from as int, to as int);
    let mut a = from;
    while a < to && is_whitespace(v[a])
        invariant
            from <= a <= to <= v@.len(),
            s == v@.subrange(from as int, to as int),
            skip_ws(s, 0) == skip_ws(s, a - from),
        decreases to - a,
    {
        a = a + 1;
    }
    let mut b = to;
    while b > a && is_whitespace(v[b - 1])
        invariant
            from <= a <= b <= to <= v@.len(),
            s == v@.subrange(from as int, to as int),
            skip_ws(s, 0) == a - from,
            skip_ws_back(s, a - from, to - from) == skip_ws_back(s, a - from, b - from),
        decreases b - a,
    {
        b = b - 1;
    }
    (a, b)
}

pub fn trim_str(s: &str) -> (r: String)
    ensures
        r@ == trim(s@),
{
    let v = chars_of(s);
    let (a, b) = trim_bounds(&v, 0, v.len());
    assert(v@.subrange(0, v@.len() as int) =~= v@);
    string_from_range(&v, a, b)
}

/// The decimal digit character of `d`.
pub open spec fn digit_char(d: nat) -> char {
    if d == 0 {
        '0'
    } else if d == 1 {
        '1'
    } else if d == 2 {
        '2'
    } else if d == 3 {
        '3'
    } else if d == 4 {
        '4'
    } else if d == 5 {
        '5'
    } else if d == 6 {
        '6'
    } else if d == 7 {
        '7'
    } else if d == 8 {
        '8'
    } else {
        '9'
    }
}

/// The decimal rendering of `n`, as `Display` writes an unsigned integer.
pub open spec fn decimal(n: nat) -> Seq<char>
    decreases n,
{
    if n < 10 {
        seq![digit_char(n)]
    } else {
        decimal(n / 10).push(digit_char(n % 10))
    }
}

fn digit(d: u64) -> (c: char)
    requires
        d < 10,
    ensures
        c == digit_char(d as nat),
{
    if d == 0 {
        '0'
    } else if d == 1 {
        '1'
    } else if d == 2 {
        '2'
    } else if d == 3 {
        '3'
    } else if d == 4 {
        '4'
    } else if d == 5 {
        '5'
    } else if d == 6 {
        '6'
    } else if d == 7 {
        '7'
    } else if d == 8 {
        '8'
    } else {
        '9'
    }
}

/// `n.to_string()` for an unsigned integer.
pub fn u64_to_string(n: u64) -> (s: String)
    ensures
        s@ == decimal(n as nat),
    decreases n,
{
    if n < 10 {
        let mut s = String::new();
        push_char(&mut s, digit(n));
        s
    } else {
        let mut s = u64_to_string(n / 10);
        push_char(&mut s, digit(n % 10));
        s
    }
}

/// `a == b` for string slices.
pub fn eq_str(a: &str, b: &str) -> (r: bool)
    ensures
        r == (a@ == b@),
{
    let x = chars_of(a);
    let y = chars_of(b);
    if x.len() != y.len() {
        return false;
    }
    let r = matches_at(&x, &y, 0);
    proof {
        if r {
            assert(x@.subrange(0, y@.len() as int) =~= x@);
        } else {
            if a@ == b@ {
                assert(x@.subrange(0, y@.len() as int) =~= y@);
            }
        }
    }
    r
}

/// Whether `c` occurs in `v`.
pub fn has_char(v: &Vec<char>, c: char) -> (r: bool)
    ensures
        r == v@.contains(c),
{
    let mut i: usize = 0;
    while i < v.len()
        invariant
            i <= v@.len(),
            forall|j: int| 0 <= j < i ==> v@[j] != c,
        decreases v@.len() - i,
    {
        if v[i] == c {
            return true;
        }
        i = i + 1;
    }
    false
}

/// Appends an argument to an argument list.
pub fn push_arg(args: &mut Vec<String>, arg: &str)
    ensures
        final(args).deep_view() == old(args).deep_view().push(arg@),
{
    let ghost before = args.deep_view();
    args.push(String::from_str(arg));
    assert(args.deep_view() =~= before.push(arg@));
}

/// Appends an owned argument to an argument list.
pub fn push_owned(args: &mut Vec<String>, arg: String)
    ensures
        final(args).deep_view() == old(args).deep_view().push(arg@),
{
    let ghost before = args.deep_view();
    let ghost a = arg@;
    args.push(arg);
    assert(args.deep_view() =~= before.push(a));
}

/// Appends a string slice to a character vector.
pub fn push_str(v: &mut Vec<char>, s: &str)
    ensures
        final(v)@ == old(v)@ + s@,
{
    let c = chars_of(s);
    extend_all(v, &c);
}


/// A line as `str::lines` yields it: a `\r` right before the `\n` is dropped.
pub open spec fn strip_cr(line: Seq<char>) -> Seq<char> {
    if line.len() > 0 && line.last() == '\r' {
        line.drop_last()
    } else {
        line
    }
}

/// The lines of `s[start..]`, scanning from `i`, as `str::lines` splits
/// them: at each `\n`; a last line without `\n` is kept as it stands, and
/// a final `\n` starts no empty line.
pub open spec fn lines_from(s: Seq<char>, start: int, i: int) -> Seq<Seq<char>>
    decreases s.len() - i,
{
    if i >= s.len() || i < 0 {
        if 0 <= start < s.len() {
            seq![s.subrange(start, s.len() as int)]
        } else {
            seq![]
        }
    } else if s[i] == '\n' {
        seq![strip_cr(s.subrange(start, i))] + lines_from(s, i + 1, i + 1)
    } else {
        lines_from(s, start, i + 1)
    }
}

/// `s.lines()`.
pub open spec fn str_lines(s: Seq<char>) -> Seq<Seq<char>> {
    lines_from(s, 0, 0)
}

/// `s.lines().next()`.
pub open spec fn first_line(s: Seq<char>) -> Option<Seq<char>> {
    if str_lines(s).len() > 0 {
        Some(str_lines(s)[0])
    } else {
        None
    }
}

fn line_of(v: &Vec<char>, start: usize, end: usize) -> (line: String)
    requires
        start <= end < v@.len(),
    ensures
        line@ == strip_cr(v@.subrange(start as int, end as int)),
{
    if end > start && v[end - 1] == '\r' {
        let line = string_from_range(v, start, end - 1);
        assert(v@.subrange(start as int, end as int).drop_last() =~= v@.subrange(
            start as int,
            end - 1,
        ));
        line
    } else {
        string_from_range(v, start, end)
    }
}

/// `s.lines()`, collected.
pub fn split_lines(s: &str) -> (lines: Vec<String>)
    ensures
        lines.deep_view() == str_lines(s@),
{
    let v = chars_of(s);
    let mut lines: Vec<String> = Vec::new();
    let mut start: usize = 0;
    let mut i: usize = 0;
    while i < v.len()
        invariant
            v@ == s@,
            0 <= start <= i <= v@.len(),
            lines.deep_view() + lines_from(v@, start as int, i as int) == str_lines(s@),
        decreases v@.len() - i,
    {
        if v[i] == '\n' {
            let line = line_of(&v, start, i);
            let ghost before = lines.deep_view();
            lines.push(line);
            assert(lines.deep_view() =~= before.push(strip_cr(v@.subrange(start as int, i as int))));
            assert(lines.deep_view() + lines_from(v@, (i + 1) as int, (i + 1) as int) =~= before
                + lines_from(v@, start as int, i as int));
            start = i + 1;
        }
        i = i + 1;
    }
    if start < v.len() {
        let line = string_from_range(&v, start, v.len());
        let ghost before = lines.deep_view();
        lines.push(line);
        assert(lines.deep_view() =~= before + lines_from(v@, start as int, i as int));
    } else {
        assert(lines.deep_view() =~= lines.deep_view() + lines_from(v@, start as int, i as int));
    }
    lines
}

/// `s.lines().next()`, owned.
pub fn first_line_of(s: &str) -> (r: Option<String>)
    ensures
        opt_view(r) == first_line(s@),
{
    let mut lines = split_lines(s);
    if lines.len() > 0 {
        let ghost l0 = lines.deep_view()[0];
        let first = lines.swap_remove(0);
        assert(first@ == l0);
        Some(first)
    } else {
        None
    }
}


/// The value of a string of ASCII decimal digits.
pub open spec fn digits_value(s: Seq<char>) -> nat
    decreases s.len(),
{
    if s.len() == 0 {
        0
    } else {
        digits_value(s.drop_last()) * 10 + (s.last() as nat - '0' as nat) as nat
    }
}

pub open spec fn is_digit(c: char) -> bool {
    '0' <= c && c <= '9'
}

pub open spec fn all_digits(s: Seq<char>) -> bool {
    forall|i: int| 0 <= i < s.len() ==> is_digit(#[trigger] s[i])
}

/// `s.parse::<u64>()`: an optional `+`, then one or more ASCII digits whose
/// value fits in 64 bits.
pub open spec fn parse_u64_spec(s: Seq<char>) -> Option<u64> {
    let d = if s.len() > 0 && s[0] == '+' {
        s.subrange(1, s.len() as int)
    } else {
        s
    };
    if d.len() > 0 && all_digits(d) && digits_value(d) <= u64::MAX {
        Some(digits_value(d) as u64)
    } else {
        None
    }
}

proof fn lemma_digits_value_step(s: Seq<char>, i: int)
    requires
        0 <= i < s.len(),
    ensures
        digits_value(s.subrange(0, i + 1)) == digits_value(s.subrange(0, i)) * 10 + (s[i] as nat
            - '0' as nat) as nat,
{
    assert(s.subrange(0, i + 1).drop_last() =~= s.subrange(0, i));
}

proof fn lemma_digits_value_grows(s: Seq<char>, i: int, j: int)
    requires
        0 <= i <= j <= s.len(),
        all_digits(s),
    ensures
        digits_value(s.subrange(0, i)) <= digits_value(s.subrange(0, j)),
    decreases j - i,
{
    if i < j {
        lemma_digits_value_grows(s, i, j - 1);
        lemma_digits_value_step(s, j - 1);
        assert(is_digit(s[j - 1]));
    }
}

/// `s.parse::<u64>().ok()`.
pub fn parse_u64(s: &str) -> (r: Option<u64>)
    ensures
        r == parse_u64_spec(s@),
{
    let v = chars_of(s);
    let start: usize = if v.len() > 0 && v[0] == '+' {
        1
    } else {
        0
    };
    let ghost d = if s@.len() > 0 && s@[0] == '+' {
        s@.subrange(1, s@.len() as int)
    } else {
        s@
    };
    assert(d =~= v@.subrange(start as int, v@.len() as int));
    if start == v.len() {
        return None;
    }
    let mut value: u64 = 0;
    let mut i: usize = start;
    while i < v.len()
        invariant
            v@ == s@,
            start <= i <= v@.len(),
            d == v@.subrange(start as int, v@.len() as int),
            d == (if s@.len() > 0 && s@[0] == '+' {
                s@.subrange(1, s@.len() as int)
            } else {
                s@
            }),
            all_digits(d.subrange(0, i - start)),
            value as nat == digits_value(d.subrange(0, i - start)),
        decreases v@.len() - i,
    {
        let c = v[i];
        if !('0' <= c && c <= '9') {
            assert(!is_digit(d[i - start]));
            assert(!all_digits(d));
            return None;
        }
        proof {
            lemma_digits_value_step(d, i - start);
            assert(d.subrange(0, i - start + 1) =~= d.subrange(0, i - start).push(c));
        }
        let digit = (c as u32 - '0' as u32) as u64;
        match value.checked_mul(10) {
            Some(m) => match m.checked_add(digit) {
                Some(n) => {
                    value = n;
                },
                None => {
                    proof {
                        assert(all_digits(d.subrange(0, i - start + 1)));
                        if all_digits(d) {
                            lemma_digits_value_grows(d, i - start + 1, d.len() as int);
                            assert(d.subrange(0, d.len() as int) =~= d);
                        }
                    }
                    return None;
                },
            },
            None => {
                proof {
                    assert(all_digits(d.subrange(0, i - start + 1)));
                    if all_digits(d) {
                        lemma_digits_value_grows(d, i - start + 1, d.len() as int);
                        assert(d.subrange(0, d.len() as int) =~= d);
                    }
                }
                return None;
            },
        }
        i = i + 1;
    }
    assert(d.subrange(0, i - start) =~= d);
    Some(value)
}


/// The pieces of `s[start..]` between `sep` characters, scanning from `i`,
/// as `str::split` yields them (an empty string gives one empty piece).
pub open spec fn split_from(s: Seq<char>, sep: char, start: int, i: int) -> Seq<Seq<char>>
    decreases s.len() - i,
{
    if i >= s.len() || i < 0 {
        seq![s.subrange(start, s.len() as int)]
    } else if s[i] == sep {
        seq![s.subrange(start, i)] + split_from(s, sep, i + 1, i + 1)
    } else {
        split_from(s, sep, start, i + 1)
    }
}

/// `s.split(sep)`.
pub open spec fn split_on(s: Seq<char>, sep: char) -> Seq<Seq<char>> {
    split_from(s, sep, 0, 0)
}

proof fn lemma_split_from_nonempty(s: Seq<char>, sep: char, start: int, i: int)
    ensures
        split_from(s, sep, start, i).len() > 0,
    decreases s.len() - i,
{
    if i >= s.len() || i < 0 {
    } else if s[i] == sep {
        lemma_split_from_nonempty(s, sep, i + 1, i + 1);
    } else {
        lemma_split_from_nonempty(s, sep, start, i + 1);
    }
}

/// `s.split(sep)`, collected.
pub fn split_char(s: &str, sep: char) -> (parts: Vec<String>)
    ensures
        parts.deep_view() == split_on(s@, sep),
        parts@.len() > 0,
{
    let v = chars_of(s);
    let mut parts: Vec<String> = Vec::new();
    let mut start: usize = 0;
    let mut i: usize = 0;
    while i < v.len()
        invariant
            v@ == s@,
            0 <= start <= i <= v@.len(),
            parts.deep_view() + split_from(v@, sep, start as int, i as int) == split_on(s@, sep),
        decreases v@.len() - i,
    {
        if v[i] == sep {
            let piece = string_from_range(&v, start, i);
            let ghost before = parts.deep_view();
            parts.push(piece);
            assert(parts.deep_view() + split_from(v@, sep, (i + 1) as int, (i + 1) as int) =~= before
                + split_from(v@, sep, start as int, i as int));
            start = i + 1;
        }
        i = i + 1;
    }
    let piece = string_from_range(&v, start, v.len());
    let ghost before = parts.deep_view();
    parts.push(piece);
    assert(parts.deep_view() =~= before + split_from(v@, sep, start as int, i as int));
    proof {
        lemma_split_from_nonempty(s@, sep, 0, 0);
    }
    parts
}

/// `s.split(sep).next()`: the text before the first `sep`, or all of it.
pub fn before_char(s: &str, sep: char) -> (r: String)
    ensures
        r@ == split_on(s@, sep)[0],
{
    let mut parts = split_char(s, sep);
    let ghost first = parts.deep_view()[0];
    let r = parts.swap_remove(0);
    assert(r@ == first);
    r
}

/// Index of the first whitespace character at or after `from` (the length
/// when there is none).
pub open spec fn token_end(s: Seq<char>, from: int) -> int
    decreases s.len() - from,
{
    if from >= s.len() || from < 0 {
        from
    } else if is_ws(s[from]) {
        from
    } else {
        token_end(s, from + 1)
    }
}

/// `s.split_whitespace().next()`: the first run of non-whitespace.
pub open spec fn first_token(s: Seq<char>) -> Option<Seq<char>> {
    let a = skip_ws(s, 0);
    if a >= s.len() {
        None
    } else {
        Some(s.subrange(a, token_end(s, a)))
    }
}

proof fn lemma_token_end_bounds(s: Seq<char>, from: int)
    requires
        0 <= from <= s.len(),
    ensures
        from <= token_end(s, from) <= s.len(),
    decreases s.len() - from,
{
    if from < s.len() && !is_ws(s[from]) {
        lemma_token_end_bounds(s, from + 1);
    }
}

pub fn first_token_of(s: &str) -> (r: Option<String>)
    ensures
        opt_view(r) == first_token(s@),
{
    let v = chars_of(s);
    let mut a: usize = 0;
    while a < v.len() && is_whitespace(v[a])
        invariant
            v@ == s@,
            a <= v@.len(),
            skip_ws(s@, 0) == skip_ws(s@, a as int),
        decreases v@.len() - a,
    {
        a = a + 1;
    }
    if a >= v.len() {
        return None;
    }
    let mut b: usize = a;
    while b < v.len() && !is_whitespace(v[b])
        invariant
            v@ == s@,
            a <= b <= v@.len(),
            token_end(s@, a as int) == token_end(s@, b as int),
        decreases v@.len() - b,
    {
        b = b + 1;
    }
    Some(string_from_range(&v, a, b))
}

/// The text after `prefix`, when `s` starts with it (`str::strip_prefix`).
pub fn strip_prefix(s: &str, prefix: &str) -> (r: Option<String>)
    ensures
        starts_with(s@, prefix@) ==> (r matches Some(x) && x@ == s@.subrange(
            prefix@.len() as int,
            s@.len() as int,
        )),
        !starts_with(s@, prefix@) ==> r is None,
{
    if !has_prefix(s, prefix) {
        return None;
    }
    let v = chars_of(s);
    let n = prefix.unicode_len();
    Some(string_from_range(&v, n, v.len()))
}

/// Lexicographic order of character sequences, which is the order of
/// `str`'s `<` (UTF-8 bytes compare as their code points do).
pub open spec fn seq_less(a: Seq<char>, b: Seq<char>) -> bool
    decreases a.len(),
{
    if a.len() == 0 {
        b.len() > 0
    } else if b.len() == 0 {
        false
    } else if a[0] != b[0] {
        a[0] < b[0]
    } else {
        seq_less(a.drop_first(), b.drop_first())
    }
}

pub proof fn lemma_less_irreflexive(a: Seq<char>)
    ensures
        !seq_less(a, a),
    decreases a.len(),
{
    if a.len() > 0 {
        lemma_less_irreflexive(a.drop_first());
    }
}

pub proof fn lemma_less_transitive(a: Seq<char>, b: Seq<char>, c: Seq<char>)
    requires
        seq_less(a, b),
        seq_less(b, c),
    ensures
        seq_less(a, c),
    decreases a.len(),
{
    if a.len() > 0 && b.len() > 0 && c.len() > 0 && a[0] == b[0] && b[0] == c[0] {
        lemma_less_transitive(a.drop_first(), b.drop_first(), c.drop_first());
    }
}

pub proof fn lemma_less_total(a: Seq<char>, b: Seq<char>)
    ensures
        a == b || seq_less(a, b) || seq_less(b, a),
    decreases a.len(),
{
    if a.len() > 0 && b.len() > 0 && a[0] == b[0] {
        lemma_less_total(a.drop_first(), b.drop_first());
        if a.drop_first() == b.drop_first() {
            assert(a =~= seq![a[0]] + a.drop_first());
            assert(b =~= seq![b[0]] + b.drop_first());
        }
    } else if a.len() == 0 && b.len() == 0 {
        assert(a =~= b);
    }
}

/// `a < b` for strings.
pub fn str_less(a: &str, b: &str) -> (r: bool)
    ensures
        r == seq_less(a@, b@),
{
    let x = chars_of(a);
    let y = chars_of(b);
    let mut i: usize = 0;
    assert(x@.subrange(0, x@.len() as int) =~= x@);
    assert(y@.subrange(0, y@.len() as int) =~= y@);
    while i < x.len() && i < y.len() && x[i] == y[i]
        invariant
            x@ == a@,
            y@ == b@,
            i <= x@.len(),
            i <= y@.len(),
            seq_less(a@, b@) == seq_less(x@.subrange(i as int, x@.len() as int), y@.subrange(
                i as int,
                y@.len() as int,
            )),
        decreases x@.len() - i,
    {
        let ghost xs = x@.subrange(i as int, x@.len() as int);
        let ghost ys = y@.subrange(i as int, y@.len() as int);
        assert(xs.drop_first() =~= x@.subrange(i + 1, x@.len() as int));
        assert(ys.drop_first() =~= y@.subrange(i + 1, y@.len() as int));
        i = i + 1;
    }
    let ghost xs = x@.subrange(i as int, x@.len() as int);
    let ghost ys = y@.subrange(i as int, y@.len() as int);
    if i == x.len() {
        i < y.len()
    } else if i == y.len() {
        false
    } else {
        assert(xs[0] == x@[i as int] && ys[0] == y@[i as int]);
        x[i] < y[i]
    }
}


/// `s.trim_end()`.
pub fn trim_end_str(s: &str) -> (r: String)
    ensures
        r@ == trim_end(s@),
{
    let v = chars_of(s);
    let mut end = v.len();
    while end > 0 && is_whitespace(v[end - 1])
        invariant
            v@ == s@,
            end <= v@.len(),
            skip_ws_back(s@, 0, s@.len() as int) == skip_ws_back(s@, 0, end as int),
        decreases end,
    {
        end = end - 1;
    }
    string_from_range(&v, 0, end)
}

/// The first position at or after `i` holding `c`.
pub open spec fn first_char(s: Seq<char>, c: char, i: int) -> Option<int>
    decreases s.len() - i,
{
    if i < 0 || i >= s.len() {
        None
    } else if s[i] == c {
        Some(i)
    } else {
        first_char(s, c, i + 1)
    }
}

pub proof fn lemma_first_char_some(s: Seq<char>, c: char, i: int)
    requires
        first_char(s, c, i) is Some,
    ensures
        i <= first_char(s, c, i)->0 < s.len(),
        s[first_char(s, c, i)->0] == c,
    decreases s.len() - i,
{
    if i >= 0 && i < s.len() && s[i] != c {
        lemma_first_char_some(s, c, i + 1);
    }
}

pub fn find_char(v: &Vec<char>, c: char) -> (r: Option<usize>)
    ensures
        r matches Some(i) ==> first_char(v@, c, 0) == Some(i as int) && i < v@.len(),
        r is None ==> first_char(v@, c, 0) is None,
{
    let mut i: usize = 0;
    while i < v.len()
        invariant
            i <= v@.len(),
            first_char(v@, c, 0) == first_char(v@, c, i as int),
        decreases v@.len() - i,
    {
        if v[i] == c {
            return Some(i);
        }
        i = i + 1;
    }
    None
}


/// Start of the run of non-whitespace characters that ends at `e`.
pub open spec fn token_start(s: Seq<char>, e: int) -> int
    decreases e,
{
    if e <= 0 || e > s.len() {
        if e > s.len() { e } else { 0 }
    } else if is_ws(s[e - 1]) {
        e
    } else {
        token_start(s, e - 1)
    }
}

/// `s.split_whitespace().last()`: the last run of non-whitespace.
pub open spec fn last_token(s: Seq<char>) -> Option<Seq<char>> {
    let e = skip_ws_back(s, 0, s.len() as int);
    if e <= 0 {
        None
    } else {
        Some(s.subrange(token_start(s, e), e))
    }
}

proof fn lemma_token_start_bounds(s: Seq<char>, e: int)
    requires
        0 <= e <= s.len(),
    ensures
        0 <= token_start(s, e) <= e,
    decreases e,
{
    if e > 0 && !is_ws(s[e - 1]) {
        lemma_token_start_bounds(s, e - 1);
    }
}

pub fn last_token_of(s: &str) -> (r: Option<String>)
    ensures
        opt_view(r) == last_token(s@),
{
    let v = chars_of(s);
    let mut e = v.len();
    while e > 0 && is_whitespace(v[e - 1])
        invariant
            v@ == s@,
            e <= v@.len(),
            skip_ws_back(s@, 0, s@.len() as int) == skip_ws_back(s@, 0, e as int),
        decreases e,
    {
        e = e - 1;
    }
    if e == 0 {
        return None;
    }
    let mut b = e;
    while b > 0 && !is_whitespace(v[b - 1])
        invariant
            v@ == s@,
            b <= e <= v@.len(),
            token_start(s@, e as int) == token_start(s@, b as int),
        decreases b,
    {
        b = b - 1;
    }
    Some(string_from_range(&v, b, e))
}


/// `s.parse::<i32>()`: an optional sign, then one or more ASCII digits
/// whose value fits in 32 bits.
pub open spec fn parse_i32_spec(s: Seq<char>) -> Option<i32> {
    let negative = s.len() > 0 && s[0] == '-';
    let d = if s.len() > 0 && (s[0] == '+' || s[0] == '-') {
        s.subrange(1, s.len() as int)
    } else {
        s
    };
    if d.len() > 0 && all_digits(d) {
        let v: int = if negative {
            -(digits_value(d) as int)
        } else {
            digits_value(d) as int
        };
        if i32::MIN <= v && v <= i32::MAX {
            Some(v as i32)
        } else {
            None
        }
    } else {
        None
    }
}

/// `s.parse::<i32>().ok()`.
pub fn parse_i32(s: &str) -> (r: Option<i32>)
    ensures
        r == parse_i32_spec(s@),
{
    let v = chars_of(s);
    let negative = v.len() > 0 && v[0] == '-';
    let signed = v.len() > 0 && (v[0] == '+' || v[0] == '-');
    let start: usize = if signed {
        1
    } else {
        0
    };
    let digits = string_from_range(&v, start, v.len());
    let ghost d = digits@;
    assert(d == (if s@.len() > 0 && (s@[0] == '+' || s@[0] == '-') {
        s@.subrange(1, s@.len() as int)
    } else {
        s@
    }));
    let dv = chars_of(digits.as_str());
    if dv.len() == 0 {
        return None;
    }
    let mut i: usize = 0;
    while i < dv.len()
        invariant
            dv@ == d,
            d == (if s@.len() > 0 && (s@[0] == '+' || s@[0] == '-') {
                s@.subrange(1, s@.len() as int)
            } else {
                s@
            }),
            i <= dv@.len(),
            forall|j: int| 0 <= j < i ==> is_digit(#[trigger] d[j]),
        decreases dv@.len() - i,
    {
        if !('0' <= dv[i] && dv[i] <= '9') {
            assert(!is_digit(d[i as int]));
            return None;
        }
        i = i + 1;
    }
    assert(all_digits(d));
    assert(is_digit(d[0]));
    let value = match parse_u64(digits.as_str()) {
        Some(x) => x,
        None => {
            assert(d[0] != '+');
            assert(digits_value(d) > u64::MAX);
            return None;
        },
    };
    proof {
        lemma_plain_digits_parse(d);
    }
    if negative {
        if value > 2_147_483_648 {
            return None;
        }
        Some((0 - (value as i64)) as i32)
    } else {
        if value > 2_147_483_647 {
            return None;
        }
        Some(value as i32)
    }
}

proof fn lemma_plain_digits_parse(d: Seq<char>)
    requires
        all_digits(d),
        d.len() > 0,
        digits_value(d) <= u64::MAX,
    ensures
        parse_u64_spec(d) == Some(digits_value(d) as u64),
{
    assert(is_digit(d[0]));
}
} // verus!
