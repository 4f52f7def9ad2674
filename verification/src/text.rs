//! Character- and string-level helpers shared by the parsers of this crate.

use vstd::prelude::*;
use vstd::string::StringExecFns;

verus! {

/// Collects the characters of `s` into a vector.
pub fn chars_of(s: &str) -> (v: Vec<char>)
    ensures
        v@ == s@,
{
    let mut v: Vec<char> = Vec::new();
    for c in iter: s.chars()
        invariant
            v@ == iter.seq().take(iter.index() as int),
            iter.seq() == s@,
    {
        v.push(c);
    }
    v
}

/// Appends one character to a string (`String::push`).
#[verifier::external_body]
pub(crate) fn push_char(s: &mut String, c: char)
    ensures
        final(s)@ == old(s)@.push(c),
{
    s.push(c);
}

/// Builds a `String` holding exactly the characters of `v`.
pub fn string_from_chars(v: &[char]) -> (s: String)
    ensures
        s@ == v@,
{
    let mut s = String::new();
    let mut k: usize = 0;
    while k < v.len()
        invariant
            k <= v.len(),
            s@ == v@.take(k as int),
        decreases v.len() - k,
    {
        push_char(&mut s, v[k]);
        assert(v@.take(k + 1) =~= v@.take(k as int).push(v@[k as int]));
        k = k + 1;
    }
    assert(v@.take(k as int) =~= v@);
    s
}

/// The character of a decimal digit.
pub open spec fn digit_char(d: nat) -> char {
    if d == 0 {
        '0'
    } else if d == 1 {
        '1'
    } else if d == 2 {
        '2'
    } else if d == 3 {
        '3'
    } else if d == 4 {
        '4'
    } else if d == 5 {
        '5'
    } else if d == 6 {
        '6'
    } else if d == 7 {
        '7'
    } else if d == 8 {
        '8'
    } else {
        '9'
    }
}

/// The decimal digits of `n`, most significant first, without leading zeros.
pub open spec fn nat_decimal(n: nat) -> Seq<char>
    decreases n,
{
    if n < 10 {
        seq![digit_char(n)]
    } else {
        nat_decimal(n / 10).push(digit_char(n % 10))
    }
}

/// The decimal representation of `n`, as `Display` writes an integer: a
/// minus sign before the digits of a negative number.
pub open spec fn int_decimal(n: int) -> Seq<char> {
    if n < 0 {
        seq!['-'] + nat_decimal((-n) as nat)
    } else {
        nat_decimal(n as nat)
    }
}

fn digit(d: u64) -> (c: char)
    requires
        d < 10,
    ensures
        c == digit_char(d as nat),
{
    if d == 0 {
        '0'
    } else if d == 1 {
        '1'
    } else if d == 2 {
        '2'
    } else if d == 3 {
        '3'
    } else if d == 4 {
        '4'
    } else if d == 5 {
        '5'
    } else if d == 6 {
        '6'
    } else if d == 7 {
        '7'
    } else if d == 8 {
        '8'
    } else {
        '9'
    }
}

fn push_decimal(n: u64, out: &mut String)
    ensures
        final(out)@ == old(out)@ + nat_decimal(n as nat),
    decreases n,
{
    if n >= 10 {
        push_decimal(n / 10, out);
    }
    push_char(out, digit(n % 10));
}

/// Appends the decimal representation of `n` to `out`.
pub fn append_u64(out: &mut String, n: u64)
    ensures
        final(out)@ == old(out)@ + nat_decimal(n as nat),
{
    push_decimal(n, out);
}

/// Appends the decimal representation of `n` to `out`.
pub fn append_i64(out: &mut String, n: i64)
    ensures
        final(out)@ == old(out)@ + int_decimal(n as int),
{
    if n < 0 {
        push_char(out, '-');
        let m: u64 = (-(n as i128)) as u64;
        push_decimal(m, out);
        assert(out@ =~= old(out)@ + int_decimal(n as int));
    } else {
        push_decimal(n as u64, out);
    }
}

/// The full Unicode lowercase mapping of a string (`str::to_lowercase`).
pub uninterp spec fn unicode_lowercase(s: Seq<char>) -> Seq<char>;

/// Lowercases `s` with `str::to_lowercase`. The mapping follows the
/// Unicode tables and may change the length; the contract names its result
/// rather than describing it.
#[verifier::external_body]
pub(crate) fn to_lowercase(s: &str) -> (r: String)
    ensures
        r@ == unicode_lowercase(s@),
{
    s.to_lowercase()
}

/// The strings `parts` joined with `sep` between each two of them, as
/// `[String]::join` builds them.
pub open spec fn joined(parts: Seq<Seq<char>>, sep: Seq<char>) -> Seq<char>
    decreases parts.len(),
{
    if parts.len() == 0 {
        seq![]
    } else if parts.len() == 1 {
        parts[0]
    } else {
        joined(parts.drop_last(), sep) + sep + parts.last()
    }
}

/// Joins `parts` with `sep` between each two of them.
pub fn join(parts: &Vec<String>, sep: &str) -> (r: String)
    ensures
        r@ == joined(parts@.map_values(|t: String| t@), sep@),
{
    let ghost views = parts@.map_values(|t: String| t@);
    let mut r = String::new();
    let mut k: usize = 0;
    while k < parts.len()
        invariant
            k <= parts.len(),
            views == parts@.map_values(|t: String| t@),
            r@ == joined(views.take(k as int), sep@),
        decreases parts.len() - k,
    {
        if k > 0 {
            r.append(sep);
        }
        r.append(parts[k].as_str());
        assert(views.take(k + 1).drop_last() =~= views.take(k as int));
        assert(k == 0 ==> r@ =~= views.take(k + 1)[0]);
        k = k + 1;
    }
    assert(views.take(k as int) =~= views);
    r
}

/// Whether two strings hold the same characters.
pub fn str_eq(a: &str, b: &str) -> (r: bool)
    ensures
        r == (a@ == b@),
{
    a.to_owned() == b.to_owned()
}

/// Copies the characters `v[from..to]` into a new vector.
pub fn copy_range(v: &Vec<char>, from: usize, to: usize) -> (r: Vec<char>)
    requires
        from <= to <= v.len(),
    ensures
        r@ == v@.subrange(from as int, to as int),
{
    let mut r: Vec<char> = Vec::new();
    let mut k = from;
    while k < to
        invariant
            from <= k <= to <= v.len(),
            r@ == v@.subrange(from as int, k as int),
        decreases to - k,
    {
        r.push(v[k]);
        k = k + 1;
    }
    r
}

/// ASCII case-insensitive equality of two characters, as
/// `char::eq_ignore_ascii_case` defines it.
pub open spec fn chars_eq_ignore_ascii_case(a: char, b: char) -> bool {
    ||| a == b
    ||| ('A' <= a <= 'Z' && (a as u32) + 32 == b as u32)
    ||| ('A' <= b <= 'Z' && (b as u32) + 32 == a as u32)
}

/// Executable form of [`chars_eq_ignore_ascii_case`].
pub fn char_eq_ignore_ascii_case(a: char, b: char) -> (r: bool)
    ensures
        r == chars_eq_ignore_ascii_case(a, b),
{
    a == b || ('A' <= a && a <= 'Z' && (a as u32) + 32 == b as u32) || ('A' <= b && b <= 'Z' && (
    b as u32) + 32 == a as u32)
}

/// First position at or after `i` that holds a line feed, or the length of
/// `s` when there is none.
pub open spec fn next_line_feed(s: Seq<char>, i: int) -> int
    decreases s.len() - i,
{
    if 0 <= i < s.len() && s[i] != '\n' {
        next_line_feed(s, i + 1)
    } else {
        i
    }
}

/// A line without its carriage return, if it ended in one.
pub open spec fn strip_carriage_return(l: Seq<char>) -> Seq<char> {
    if l.len() > 0 && l.last() == '\r' {
        l.drop_last()
    } else {
        l
    }
}

/// The lines of `s` from position `i` on, as `str::lines` yields them: split
/// at each line feed, with a carriage return right before the line feed
/// removed, and no empty line after a final line feed.
pub open spec fn lines_from(s: Seq<char>, i: int) -> Seq<Seq<char>>
    decreases s.len() - i,
{
    if i < 0 || i >= s.len() {
        seq![]
    } else {
        let k = next_line_feed(s, i);
        proof {
            lemma_next_line_feed_bounds(s, i);
        }
        if k >= s.len() {
            seq![s.subrange(i, s.len() as int)]
        } else {
            seq![strip_carriage_return(s.subrange(i, k))] + lines_from(s, k + 1)
        }
    }
}

/// The lines of `s`, as `str::lines` yields them.
pub open spec fn lines_of(s: Seq<char>) -> Seq<Seq<char>> {
    lines_from(s, 0)
}

pub proof fn lemma_next_line_feed_bounds(s: Seq<char>, i: int)
    ensures
        next_line_feed(s, i) >= i,
        0 <= i <= s.len() ==> next_line_feed(s, i) <= s.len(),
        0 <= i && next_line_feed(s, i) < s.len() ==> s[next_line_feed(s, i)] == '\n',
    decreases s.len() - i,
{
    if 0 <= i < s.len() && s[i] != '\n' {
        lemma_next_line_feed_bounds(s, i + 1);
    }
}

proof fn lemma_next_line_feed_shift(p: Seq<char>, q: Seq<char>, i: int)
    requires
        0 <= i,
    ensures
        next_line_feed(p + q, p.len() + i) == p.len() + next_line_feed(q, i),
    decreases q.len() - i,
{
    let x = p + q;
    if i < q.len() && q[i] != '\n' {
        assert(x[p.len() + i] == q[i]);
        lemma_next_line_feed_shift(p, q, i + 1);
    } else if i < q.len() {
        assert(x[p.len() + i] == q[i]);
    }
}

/// The lines that follow a prefix `p` are the lines of what follows it.
pub proof fn lemma_lines_from_shift(p: Seq<char>, q: Seq<char>, i: int)
    requires
        0 <= i,
    ensures
        lines_from(p + q, p.len() + i) == lines_from(q, i),
    decreases q.len() - i,
{
    let x = p + q;
    if i < q.len() {
        lemma_next_line_feed_shift(p, q, i);
        lemma_next_line_feed_bounds(q, i);
        let k = next_line_feed(q, i);
        if k >= q.len() {
            assert(x.subrange(p.len() + i, x.len() as int) =~= q.subrange(i, q.len() as int));
        } else {
            assert(x.subrange(p.len() + i, p.len() + k) =~= q.subrange(i, k));
            lemma_lines_from_shift(p, q, k + 1);
            assert(p.len() + k + 1 == p.len() + (k + 1));
        }
    }
}

proof fn lemma_first_line_feed(a: Seq<char>, b: Seq<char>, i: int)
    requires
        0 <= i <= a.len(),
        forall|m: int| 0 <= m < a.len() ==> a[m] != '\n',
    ensures
        next_line_feed(a + seq!['\n'] + b, i) == a.len(),
    decreases a.len() - i,
{
    let x = a + seq!['\n'] + b;
    if i < a.len() {
        assert(x[i] == a[i]);
        lemma_first_line_feed(a, b, i + 1);
    } else {
        assert(x[i] == '\n');
    }
}

/// The lines of `a`, a line feed and `b`, where `a` holds no line feed and
/// does not end in a carriage return: `a`, then the lines of `b`.
pub proof fn lemma_lines_of_join(a: Seq<char>, b: Seq<char>)
    requires
        forall|m: int| 0 <= m < a.len() ==> a[m] != '\n',
        a.len() == 0 || a.last() != '\r',
    ensures
        lines_of(a + seq!['\n'] + b) == seq![a] + lines_of(b),
{
    let x = a + seq!['\n'] + b;
    lemma_first_line_feed(a, b, 0);
    assert(x.subrange(0, a.len() as int) =~= a);
    assert(x =~= (a + seq!['\n']) + b);
    lemma_lines_from_shift(a + seq!['\n'], b, 0);
    assert((a + seq!['\n']).len() + 0 == a.len() + 1);
}

/// Position of the first line feed at or after `i` (or the length of `v`).
pub fn find_line_feed(v: &Vec<char>, i: usize) -> (k: usize)
    requires
        i <= v.len(),
    ensures
        k == next_line_feed(v@, i as int),
        i <= k <= v.len(),
{
    let mut k = i;
    while k < v.len() && v[k] != '\n'
        invariant
            i <= k <= v.len(),
            next_line_feed(v@, k as int) == next_line_feed(v@, i as int),
        decreases v.len() - k,
    {
        k = k + 1;
    }
    k
}

/// The lines of `v`, as `str::lines` yields them.
pub fn split_lines(v: &Vec<char>) -> (lines: Vec<Vec<char>>)
    ensures
        lines@.map_values(|l: Vec<char>| l@) == lines_of(v@),
{
    let mut lines: Vec<Vec<char>> = Vec::new();
    let mut i: usize = 0;
    while i < v.len()
        invariant
            i <= v.len(),
            lines@.map_values(|l: Vec<char>| l@) + lines_from(v@, i as int) == lines_of(v@),
        decreases v.len() - i,
    {
        let k = find_line_feed(v, i);
        let ghost before = lines@.map_values(|l: Vec<char>| l@);
        if k == v.len() {
            let line = copy_range(v, i, k);
            lines.push(line);
            assert(lines_from(v@, i as int) == seq![v@.subrange(i as int, v@.len() as int)]);
            assert(lines_from(v@, k as int) =~= seq![]);
            assert(lines@.map_values(|l: Vec<char>| l@) =~= before + seq![
                v@.subrange(i as int, v@.len() as int),
            ]);
            i = k;
        } else {
            let mut line = copy_range(v, i, k);
            if line.len() > 0 && line[line.len() - 1] == '\r' {
                line.pop();
            }
            assert(line@ == strip_carriage_return(v@.subrange(i as int, k as int)));
            lines.push(line);
            assert(lines@.map_values(|l: Vec<char>| l@) =~= before + seq![
                strip_carriage_return(v@.subrange(i as int, k as int)),
            ]);
            i = k + 1;
        }
    }
    assert(lines_from(v@, i as int) =~= seq![]);
    assert(lines@.map_values(|l: Vec<char>| l@) + seq![] =~= lines@.map_values(|l: Vec<char>| l@));
    lines
}

/// Whether `p` occurs in `s` at position `i`.
pub open spec fn occurs_at(s: Seq<char>, p: Seq<char>, i: int) -> bool {
    0 <= i && i + p.len() <= s.len() && s.subrange(i, i + p.len()) == p
}

/// Whether `p` occurs anywhere in `s`, as `str::contains` finds it.
pub open spec fn has_substring(s: Seq<char>, p: Seq<char>) -> bool {
    exists|i: int| occurs_at(s, p, i)
}

fn matches_at(s: &Vec<char>, p: &Vec<char>, i: usize) -> (r: bool)
    requires
        i + p.len() <= s.len(),
    ensures
        r == occurs_at(s@, p@, i as int),
{
    let mut k: usize = 0;
    while k < p.len()
        invariant
            i + p.len() <= s.len(),
            k <= p.len(),
            forall|j: int| 0 <= j < k ==> s@[i + j] == p@[j],
        decreases p.len() - k,
    {
        if s[i + k] != p[k] {
            assert(s@.subrange(i as int, i + p.len())[k as int] != p@[k as int]);
            return false;
        }
        k = k + 1;
    }
    assert(s@.subrange(i as int, i + p.len()) =~= p@);
    true
}

/// Whether `needle` occurs in `hay`.
pub fn contains_str(hay: &str, needle: &str) -> (r: bool)
    ensures
        r == has_substring(hay@, needle@),
{
    let s = chars_of(hay);
    let p = chars_of(needle);
    if p.len() > s.len() {
        return false;
    }
    if p.len() == 0 {
        assert(occurs_at(hay@, needle@, 0)) by {
            assert(hay@.subrange(0, 0) =~= needle@);
        }
        return true;
    }
    let last = s.len() - p.len();
    let mut i: usize = 0;
    while i <= last
        invariant
            s@ == hay@,
            p@ == needle@,
            0 < p.len() <= s.len(),
            last == s.len() - p.len(),
            i <= last + 1,
            forall|j: int| 0 <= j < i ==> !occurs_at(hay@, needle@, j),
        decreases last + 1 - i,
    {
        if matches_at(&s, &p, i) {
            return true;
        }
        i = i + 1;
    }
    assert forall|j: int| !occurs_at(hay@, needle@, j) by {
        if j >= i {
            assert(j + p.len() > s.len());
        }
    }
    false
}

/// `s` with the prefix `p` removed, when it starts with `p`.
pub open spec fn strip_prefix_of(s: Seq<char>, p: Seq<char>) -> Option<Seq<char>> {
    if p.len() <= s.len() && s.take(p.len() as int) == p {
        Some(s.skip(p.len() as int))
    } else {
        None
    }
}

/// Removes the prefix `p` from `s`, when `s` starts with it.
pub fn strip_prefix(s: &str, p: &str) -> (r: Option<String>)
    ensures
        match strip_prefix_of(s@, p@) {
            Some(rest) => r matches Some(t) && t@ == rest,
            None => r is None,
        },
{
    let sv = chars_of(s);
    let pv = chars_of(p);
    if pv.len() > sv.len() {
        return None;
    }
    let mut k: usize = 0;
    while k < pv.len()
        invariant
            sv@ == s@,
            pv@ == p@,
            pv.len() <= sv.len(),
            k <= pv.len(),
            forall|j: int| 0 <= j < k ==> sv@[j] == pv@[j],
        decreases pv.len() - k,
    {
        if sv[k] != pv[k] {
            assert(s@.take(p@.len() as int)[k as int] != p@[k as int]);
            return None;
        }
        k = k + 1;
    }
    assert(s@.take(p@.len() as int) =~= p@);
    let rest = copy_range(&sv, pv.len(), sv.len());
    assert(rest@ =~= s@.skip(p@.len() as int));
    Some(string_from_chars(rest.as_slice()))
}

/// A character with the Unicode `White_Space` property, which
/// `char::is_whitespace` and `str::trim` go by.
pub open spec fn is_unicode_whitespace(c: char) -> bool {
    ||| '\u{9}' <= c <= '\u{d}'
    ||| c == ' '
    ||| c == '\u{85}'
    ||| c == '\u{a0}'
    ||| c == '\u{1680}'
    ||| '\u{2000}' <= c <= '\u{200a}'
    ||| c == '\u{2028}'
    ||| c == '\u{2029}'
    ||| c == '\u{202f}'
    ||| c == '\u{205f}'
    ||| c == '\u{3000}'
}

/// Executable form of [`is_unicode_whitespace`].
pub fn is_unicode_whitespace_char(c: char) -> (r: bool)
    ensures
        r == is_unicode_whitespace(c),
{
    ('\u{9}' <= c && c <= '\u{d}') || c == ' ' || c == '\u{85}' || c == '\u{a0}' || c
        == '\u{1680}' || ('\u{2000}' <= c && c <= '\u{200a}') || c == '\u{2028}' || c
        == '\u{2029}' || c == '\u{202f}' || c == '\u{205f}' || c == '\u{3000}'
}

/// The first position from `i` on that holds no whitespace (or the end).
pub open spec fn trim_start_index(s: Seq<char>, i: int) -> int
    decreases s.len() - i,
{
    if 0 <= i < s.len() && is_unicode_whitespace(s[i]) {
        trim_start_index(s, i + 1)
    } else {
        i
    }
}

/// The position after the last character before `j`, and not before `lo`,
/// that is no whitespace (or `lo`).
pub open spec fn trim_end_index(s: Seq<char>, j: int, lo: int) -> int
    decreases j - lo,
{
    if lo < j && is_unicode_whitespace(s[j - 1]) {
        trim_end_index(s, j - 1, lo)
    } else {
        j
    }
}

/// `s` without leading and trailing whitespace, as `str::trim` removes it.
pub open spec fn trimmed(s: Seq<char>) -> Seq<char> {
    let a = trim_start_index(s, 0);
    s.subrange(a, trim_end_index(s, s.len() as int, a))
}

/// Removes leading and trailing whitespace, as `str::trim` does.
pub fn trim(s: &str) -> (r: String)
    ensures
        r@ == trimmed(s@),
{
    let v = chars_of(s);
    let mut a: usize = 0;
    while a < v.len() && is_unicode_whitespace_char(v[a])
        invariant
            a <= v.len(),
            v@ == s@,
            trim_start_index(s@, a as int) == trim_start_index(s@, 0),
        decreases v.len() - a,
    {
        a = a + 1;
    }
    let mut b: usize = v.len();
    while b > a && is_unicode_whitespace_char(v[b - 1])
        invariant
            a <= b <= v.len(),
            v@ == s@,
            trim_end_index(s@, b as int, a as int) == trim_end_index(s@, s@.len() as int, a as int),
        decreases b,
    {
        b = b - 1;
    }
    let part = copy_range(&v, a, b);
    string_from_chars(part.as_slice())
}

/// A copy of a vector of strings.
pub fn clone_strings(v: &Vec<String>) -> (r: Vec<String>)
    ensures
        r@ == v@,
{
    let mut r: Vec<String> = Vec::new();
    let mut k: usize = 0;
    while k < v.len()
        invariant
            k <= v.len(),
            r@ == v@.take(k as int),
        decreases v.len() - k,
    {
        r.push(v[k].clone());
        assert(v@.take(k + 1) =~= v@.take(k as int).push(v@[k as int]));
        k = k + 1;
    }
    assert(v@.take(k as int) =~= v@);
    r
}

} // verus!
