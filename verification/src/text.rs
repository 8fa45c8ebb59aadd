//! Strings as sequences of characters: searching, trimming, splitting, joining
//! and rendering numbers.
//!
//! Every function works on whole characters, so nothing here depends on how a
//! string is encoded.

use vstd::prelude::*;

verus! {

/// `String::push` appends the given character to the end of the string.
pub assume_specification[ String::push ](s: &mut String, c: char)
    ensures
        final(s)@ == old(s)@.push(c),
;

/// The characters with the Unicode property `White_Space`.
pub open spec fn whitespace(c: char) -> bool {
    ||| '\u{9}' <= c <= '\u{d}'
    ||| c == ' '
    ||| c == '\u{85}'
    ||| c == '\u{a0}'
    ||| c == '\u{1680}'
    ||| '\u{2000}' <= c <= '\u{200a}'
    ||| c == '\u{2028}'
    ||| c == '\u{2029}'
    ||| c == '\u{202f}'
    ||| c == '\u{205f}'
    ||| c == '\u{3000}'
}

pub fn is_whitespace(c: char) -> (r: bool)
    ensures
        r == whitespace(c),
{
    ('\u{9}' <= c && c <= '\u{d}') || c == ' ' || c == '\u{85}' || c == '\u{a0}' || c
        == '\u{1680}' || ('\u{2000}' <= c && c <= '\u{200a}') || c == '\u{2028}' || c == '\u{2029}'
        || c == '\u{202f}' || c == '\u{205f}' || c == '\u{3000}'
}

/// The characters of a string, one by one.
pub fn to_chars(s: &str) -> (r: Vec<char>)
    ensures
        r@ == s@,
{
    let mut out: Vec<char> = Vec::new();
    for c in it: s.chars()
        invariant
            it.seq() == s@,
            out@ == s@.take(it.index()),
    {
        out.push(c);
    }
    out
}

/// The string made of the characters from `from` up to but not including `to`.
pub fn from_chars(chars: &[char], from: usize, to: usize) -> (r: String)
    requires
        from <= to <= chars@.len(),
    ensures
        r@ == chars@.subrange(from as int, to as int),
{
    let mut out = String::new();
    let mut i: usize = from;
    while i < to
        invariant
            from <= i <= to <= chars@.len(),
            out@ == chars@.subrange(from as int, i as int),
        decreases to - i,
    {
        out.push(chars[i]);
        i = i + 1;
    }
    out
}

/// `a` followed by `b`.
pub fn cat2(a: &str, b: &str) -> (r: String)
    ensures
        r@ == a@ + b@,
{
    a.to_owned().concat(b)
}

/// `a`, `b` and `c` in a row.
pub fn cat3(a: &str, b: &str, c: &str) -> (r: String)
    ensures
        r@ == a@ + b@ + c@,
{
    a.to_owned().concat(b).concat(c)
}

/// Four strings in a row.
pub fn cat4(a: &str, b: &str, c: &str, d: &str) -> (r: String)
    ensures
        r@ == a@ + b@ + c@ + d@,
{
    a.to_owned().concat(b).concat(c).concat(d)
}

/// Five strings in a row.
pub fn cat5(a: &str, b: &str, c: &str, d: &str, e: &str) -> (r: String)
    ensures
        r@ == a@ + b@ + c@ + d@ + e@,
{
    a.to_owned().concat(b).concat(c).concat(d).concat(e)
}

/// Six strings in a row.
pub fn cat6(a: &str, b: &str, c: &str, d: &str, e: &str, f: &str) -> (r: String)
    ensures
        r@ == a@ + b@ + c@ + d@ + e@ + f@,
{
    a.to_owned().concat(b).concat(c).concat(d).concat(e).concat(f)
}

/// Seven strings in a row.
pub fn cat7(a: &str, b: &str, c: &str, d: &str, e: &str, f: &str, g: &str) -> (r: String)
    ensures
        r@ == a@ + b@ + c@ + d@ + e@ + f@ + g@,
{
    a.to_owned().concat(b).concat(c).concat(d).concat(e).concat(f).concat(g)
}

/// Whether two strings hold the same characters.
pub fn same(a: &str, b: &str) -> (r: bool)
    ensures
        r == (a@ == b@),
{
    let x = to_chars(a);
    let y = to_chars(b);
    if x.len() != y.len() {
        return false;
    }
    let mut i: usize = 0;
    while i < x.len()
        invariant
            i <= x.len(),
            x.len() == y.len(),
            x@ == a@,
            y@ == b@,
            forall|j: int| 0 <= j < i ==> x@[j] == y@[j],
        decreases x.len() - i,
    {
        if x[i] != y[i] {
            return false;
        }
        i = i + 1;
    }
    assert(x@ =~= y@);
    true
}

/// `s` without its leading whitespace.
pub open spec fn trim_start(s: Seq<char>) -> Seq<char>
    decreases s.len(),
{
    if s.len() > 0 && whitespace(s[0]) {
        trim_start(s.drop_first())
    } else {
        s
    }
}

/// `s` without its trailing whitespace.
pub open spec fn trim_end(s: Seq<char>) -> Seq<char>
    decreases s.len(),
{
    if s.len() > 0 && whitespace(s.last()) {
        trim_end(s.drop_last())
    } else {
        s
    }
}

/// `s` without whitespace at either end.
pub open spec fn trimmed(s: Seq<char>) -> Seq<char> {
    trim_end(trim_start(s))
}

/// Removes whitespace at both ends.
pub fn trim(s: &str) -> (r: String)
    ensures
        r@ == trimmed(s@),
{
    let v = to_chars(s);
    let mut i: usize = 0;
    assert(v@.skip(0) =~= v@);
    while i < v.len() && is_whitespace(v[i])
        invariant
            i <= v.len(),
            trim_start(v@) == trim_start(v@.skip(i as int)),
        decreases v.len() - i,
    {
        assert(v@.skip(i as int).drop_first() =~= v@.skip(i + 1));
        i = i + 1;
    }
    assert(trim_start(v@) == v@.skip(i as int));
    let mut j: usize = v.len();
    assert(v@.subrange(i as int, j as int) =~= v@.skip(i as int));
    while j > i && is_whitespace(v[j - 1])
        invariant
            i <= j <= v.len(),
            trim_end(v@.skip(i as int)) == trim_end(v@.subrange(i as int, j as int)),
        decreases j,
    {
        assert(v@.subrange(i as int, j as int).drop_last() =~= v@.subrange(i as int, j - 1));
        j = j - 1;
    }
    from_chars(&v, i, j)
}

/// Removes whitespace at the start.
pub fn trim_left(s: &str) -> (r: String)
    ensures
        r@ == trim_start(s@),
{
    let v = to_chars(s);
    let mut i: usize = 0;
    assert(v@.skip(0) =~= v@);
    while i < v.len() && is_whitespace(v[i])
        invariant
            i <= v.len(),
            trim_start(v@) == trim_start(v@.skip(i as int)),
        decreases v.len() - i,
    {
        assert(v@.skip(i as int).drop_first() =~= v@.skip(i + 1));
        i = i + 1;
    }
    assert(v@.subrange(i as int, v@.len() as int) =~= v@.skip(i as int));
    from_chars(&v, i, v.len())
}

/// Whether nothing is left of a string once it is trimmed.
pub fn is_blank(s: &str) -> (r: bool)
    ensures
        r == (trimmed(s@).len() == 0),
{
    let t = trim(s);
    t.as_str().is_empty()
}

/// Whether `s` begins with `prefix`.
pub fn starts_with(s: &str, prefix: &str) -> (r: bool)
    ensures
        r == prefix@.is_prefix_of(s@),
{
    let v = to_chars(s);
    let p = to_chars(prefix);
    if p.len() > v.len() {
        return false;
    }
    let mut i: usize = 0;
    while i < p.len()
        invariant
            i <= p.len() <= v.len(),
            v@ == s@,
            p@ == prefix@,
            forall|j: int| 0 <= j < i ==> v@[j] == p@[j],
        decreases p.len() - i,
    {
        if v[i] != p[i] {
            assert(s@.subrange(0, prefix@.len() as int)[i as int] != prefix@[i as int]);
            return false;
        }
        i = i + 1;
    }
    true
}

/// Whether `s` ends with `suffix`.
pub fn ends_with(s: &str, suffix: &str) -> (r: bool)
    ensures
        r == suffix@.is_suffix_of(s@),
{
    let v = to_chars(s);
    let p = to_chars(suffix);
    if p.len() > v.len() {
        return false;
    }
    let base: usize = v.len() - p.len();
    let mut i: usize = 0;
    while i < p.len()
        invariant
            i <= p.len() <= v.len(),
            base == v.len() - p.len(),
            v@ == s@,
            p@ == suffix@,
            forall|j: int| 0 <= j < i ==> v@[base + j] == p@[j],
        decreases p.len() - i,
    {
        if v[base + i] != p[i] {
            assert(s@.subrange(base as int, s@.len() as int)[i as int] != suffix@[i as int]);
            return false;
        }
        i = i + 1;
    }
    true
}

/// What follows `prefix` in `s`, where `s` begins with it.
pub open spec fn after_prefix(s: Seq<char>, prefix: Seq<char>) -> Option<Seq<char>> {
    if prefix.is_prefix_of(s) {
        Some(s.skip(prefix.len() as int))
    } else {
        None
    }
}

/// What precedes `suffix` in `s`, where `s` ends with it.
pub open spec fn before_suffix(s: Seq<char>, suffix: Seq<char>) -> Option<Seq<char>> {
    if suffix.is_suffix_of(s) {
        Some(s.take(s.len() - suffix.len()))
    } else {
        None
    }
}

/// The characters of an optional string.
pub open spec fn opt_view(s: Option<String>) -> Option<Seq<char>> {
    match s {
        Some(t) => Some(t@),
        None => None,
    }
}

/// The characters of an optional borrowed string.
pub open spec fn opt_str_view(s: Option<&str>) -> Option<Seq<char>> {
    match s {
        Some(t) => Some(t@),
        None => None,
    }
}

/// The characters of each string of a list.
pub open spec fn views(list: Seq<String>) -> Seq<Seq<char>> {
    list.map_values(|t: String| t@)
}

pub fn strip_prefix(s: &str, prefix: &str) -> (r: Option<String>)
    ensures
        opt_view(r) == after_prefix(s@, prefix@),
{
    if starts_with(s, prefix) {
        let v = to_chars(s);
        let n: usize = prefix.unicode_len();
        Some(from_chars(&v, n, v.len()))
    } else {
        None
    }
}

pub fn strip_suffix(s: &str, suffix: &str) -> (r: Option<String>)
    ensures
        opt_view(r) == before_suffix(s@, suffix@),
{
    if ends_with(s, suffix) {
        let v = to_chars(s);
        let n: usize = suffix.unicode_len();
        Some(from_chars(&v, 0, v.len() - n))
    } else {
        None
    }
}

/// Whether `needle` occurs in `s` at some position.
pub open spec fn occurs_in(needle: Seq<char>, s: Seq<char>) -> bool {
    exists|i: int| #[trigger] occurs_at(needle, s, i)
}

/// Whether `needle` occurs in `s` at position `i`.
pub open spec fn occurs_at(needle: Seq<char>, s: Seq<char>, i: int) -> bool {
    0 <= i <= s.len() - needle.len() && s.subrange(i, i + needle.len()) == needle
}

/// Whether `s` contains `needle`.
pub fn contains(s: &str, needle: &str) -> (r: bool)
    ensures
        r == occurs_in(needle@, s@),
{
    let v = to_chars(s);
    let p = to_chars(needle);
    if p.len() > v.len() {
        return false;
    }
    let last: usize = v.len() - p.len();
    let mut i: usize = 0;
    loop
        invariant
            v@ == s@,
            p@ == needle@,
            p.len() <= v.len(),
            last == v.len() - p.len(),
            i <= last,
            forall|k: int| 0 <= k < i ==> !occurs_at(needle@, s@, k),
        decreases last - i,
    {
        let mut j: usize = 0;
        while j < p.len() && v[i + j] == p[j]
            invariant
                j <= p.len(),
                i <= last,
                last == v.len() - p.len(),
                forall|m: int| 0 <= m < j ==> v@[i + m] == p@[m],
            decreases p.len() - j,
        {
            j = j + 1;
        }
        if j == p.len() {
            assert(s@.subrange(i as int, i + needle@.len()) =~= needle@);
            assert(occurs_at(needle@, s@, i as int));
            return true;
        }
        assert(s@.subrange(i as int, i + needle@.len())[j as int] != needle@[j as int]);
        if i == last {
            return false;
        }
        i = i + 1;
    }
}

/// The position of the first `c` in `s`, or the length of `s` where there is none.
pub open spec fn first_index(s: Seq<char>, c: char) -> int
    decreases s.len(),
{
    if s.len() == 0 || s[0] == c {
        0
    } else {
        1 + first_index(s.drop_first(), c)
    }
}

/// `first_index` is where the first occurrence is.
pub proof fn lemma_first_index(s: Seq<char>, c: char)
    ensures
        0 <= first_index(s, c) <= s.len(),
        first_index(s, c) < s.len() ==> s[first_index(s, c)] == c,
        forall|i: int| 0 <= i < first_index(s, c) ==> s[i] != c,
        s.contains(c) == (first_index(s, c) < s.len()),
    decreases s.len(),
{
    if s.len() == 0 {
    } else if s[0] == c {
        assert(s.contains(c));
    } else {
        let t = s.drop_first();
        lemma_first_index(t, c);
        assert forall|i: int| 0 <= i < first_index(s, c) implies s[i] != c by {
            if i > 0 {
                assert(s[i] == t[i - 1]);
            }
        }
        if s.contains(c) {
            let i = choose|i: int| 0 <= i < s.len() && s[i] == c;
            assert(t[i - 1] == c);
        }
    }
}

/// Any position that holds the first `c` is `first_index`.
pub proof fn lemma_first_index_is(s: Seq<char>, c: char, i: int)
    requires
        0 <= i <= s.len(),
        i < s.len() ==> s[i] == c,
        forall|j: int| 0 <= j < i ==> s[j] != c,
    ensures
        first_index(s, c) == i,
{
    lemma_first_index(s, c);
}

/// Finds the first `c` from position `from` on, in the rest of the characters.
pub fn find_char(v: &[char], from: usize, c: char) -> (r: usize)
    requires
        from <= v@.len(),
    ensures
        from <= r <= v@.len(),
        r == from + first_index(v@.skip(from as int), c),
{
    let mut i: usize = from;
    while i < v.len() && v[i] != c
        invariant
            from <= i <= v@.len(),
            forall|j: int| from <= j < i ==> v@[j] != c,
        decreases v@.len() - i,
    {
        i = i + 1;
    }
    proof {
        lemma_first_index_is(v@.skip(from as int), c, i - from);
    }
    i
}

/// The parts of `s` before and after its first `c`.
pub open spec fn split_once_at(s: Seq<char>, c: char) -> Option<(Seq<char>, Seq<char>)> {
    let i = first_index(s, c);
    if i < s.len() {
        Some((s.take(i), s.skip(i + 1)))
    } else {
        None
    }
}

pub fn split_once(s: &str, c: char) -> (r: Option<(String, String)>)
    ensures
        match r {
            Some(p) => split_once_at(s@, c) == Some((p.0@, p.1@)),
            None => split_once_at(s@, c) is None,
        },
{
    let v = to_chars(s);
    assert(v@.skip(0) =~= v@);
    let i: usize = find_char(&v, 0, c);
    if i < v.len() {
        Some((from_chars(&v, 0, i), from_chars(&v, i + 1, v.len())))
    } else {
        None
    }
}

/// The pieces between the occurrences of `c`: one more than there are occurrences.
pub open spec fn split_at_all(s: Seq<char>, c: char) -> Seq<Seq<char>>
    decreases s.len(),
{
    let i = first_index(s, c);
    if 0 <= i < s.len() {
        seq![s.take(i)] + split_at_all(s.skip(i + 1), c)
    } else {
        seq![s]
    }
}

/// Splits `s` at every `c`.
pub fn split(s: &str, c: char) -> (r: Vec<String>)
    ensures
        views(r@) == split_at_all(s@, c),
{
    let v = to_chars(s);
    let mut out: Vec<String> = Vec::new();
    let mut from: usize = 0;
    proof {
        assert(v@.skip(0) =~= s@);
        assert(views(out@) + split_at_all(s@, c) =~= split_at_all(s@, c));
    }
    loop
        invariant
            v@ == s@,
            from <= v.len(),
            views(out@) + split_at_all(v@.skip(from as int), c) == split_at_all(s@, c),
        decreases v.len() - from,
    {
        let i: usize = find_char(&v, from, c);
        let piece = from_chars(&v, from, i);
        let ghost rest = v@.skip(from as int);
        let ghost before = views(out@);
        proof {
            lemma_first_index(rest, c);
            assert(rest.take(i - from) =~= piece@);
        }
        out.push(piece);
        assert(views(out@) =~= before.push(piece@));
        if i == v.len() {
            assert(rest =~= piece@);
            assert(views(out@) =~= before + seq![rest]);
            return out;
        }
        proof {
            assert(rest.skip(i - from + 1) =~= v@.skip(i + 1));
            assert(before + (seq![rest.take(i - from)] + split_at_all(v@.skip(i + 1), c))
                =~= before.push(piece@) + split_at_all(v@.skip(i + 1), c));
        }
        from = i + 1;
    }
}

/// A line without the carriage return that may end it.
pub open spec fn without_cr(line: Seq<char>) -> Seq<char> {
    if line.len() > 0 && line.last() == '\r' {
        line.drop_last()
    } else {
        line
    }
}

/// The lines of `s`: what stands between line feeds, without a carriage return at a line's
/// end, and without an empty last line.
pub open spec fn lines_of(s: Seq<char>) -> Seq<Seq<char>>
    decreases s.len(),
{
    let i = first_index(s, '\n');
    if s.len() == 0 {
        seq![]
    } else if 0 <= i < s.len() {
        seq![without_cr(s.take(i))] + lines_of(s.skip(i + 1))
    } else {
        seq![s]
    }
}

pub fn lines(s: &str) -> (r: Vec<String>)
    ensures
        views(r@) == lines_of(s@),
{
    let v = to_chars(s);
    let mut out: Vec<String> = Vec::new();
    let mut from: usize = 0;
    proof {
        assert(v@.skip(0) =~= s@);
        assert(views(out@) + lines_of(s@) =~= lines_of(s@));
    }
    while from < v.len()
        invariant
            v@ == s@,
            from <= v.len(),
            views(out@) + lines_of(v@.skip(from as int)) == lines_of(s@),
        decreases v.len() - from,
    {
        let i: usize = find_char(&v, from, '\n');
        let ghost rest = v@.skip(from as int);
        let ghost before = views(out@);
        proof {
            lemma_first_index(rest, '\n');
        }
        if i == v.len() {
            let piece = from_chars(&v, from, i);
            assert(piece@ =~= rest);
            out.push(piece);
            assert(views(out@) =~= before + seq![rest]);
            return out;
        }
        let end: usize = if i > from && v[i - 1] == '\r' {
            i - 1
        } else {
            i
        };
        let piece = from_chars(&v, from, end);
        assert(piece@ =~= without_cr(rest.take(i - from)));
        out.push(piece);
        proof {
            assert(views(out@) =~= before.push(piece@));
            assert(rest.skip(i - from + 1) =~= v@.skip(i + 1));
            assert(before + (seq![piece@] + lines_of(v@.skip(i + 1))) =~= before.push(piece@)
                + lines_of(v@.skip(i + 1)));
        }
        from = i + 1;
    }
    assert(v@.skip(from as int) =~= seq![]);
    assert(views(out@) + lines_of(seq![]) =~= views(out@));
    out
}

/// The strings of `parts` in a row with `sep` between neighbours.
pub open spec fn joined(parts: Seq<Seq<char>>, sep: Seq<char>) -> Seq<char>
    decreases parts.len(),
{
    if parts.len() == 0 {
        seq![]
    } else if parts.len() == 1 {
        parts[0]
    } else {
        joined(parts.drop_last(), sep) + sep + parts.last()
    }
}

pub fn join(parts: &[String], sep: &str) -> (r: String)
    ensures
        r@ == joined(views(parts@), sep@),
{
    let mut out = String::new();
    let mut i: usize = 0;
    while i < parts.len()
        invariant
            i <= parts@.len(),
            out@ == joined(views(parts@.take(i as int)), sep@),
        decreases parts@.len() - i,
    {
        if i > 0 {
            out.append(sep);
        }
        out.append(parts[i].as_str());
        proof {
            let now = views(parts@.take(i + 1));
            assert(now.drop_last() =~= views(parts@.take(i as int)));
            assert(now.last() == parts@[i as int]@);
            if i == 0 {
                assert(out@ =~= now[0]);
            }
        }
        i = i + 1;
    }
    assert(parts@.take(i as int) =~= parts@);
    out
}

/// `s` with each `from` replaced by `to`.
pub open spec fn replaced(s: Seq<char>, from: char, to: Seq<char>) -> Seq<char>
    decreases s.len(),
{
    if s.len() == 0 {
        seq![]
    } else if s.last() == from {
        replaced(s.drop_last(), from, to) + to
    } else {
        replaced(s.drop_last(), from, to).push(s.last())
    }
}

pub fn replace(s: &str, from: char, to: &str) -> (r: String)
    ensures
        r@ == replaced(s@, from, to@),
{
    let v = to_chars(s);
    let mut out = String::new();
    let mut i: usize = 0;
    while i < v.len()
        invariant
            i <= v.len(),
            out@ == replaced(v@.take(i as int), from, to@),
        decreases v.len() - i,
    {
        proof {
            assert(v@.take(i + 1).drop_last() =~= v@.take(i as int));
            assert(v@.take(i + 1).last() == v@[i as int]);
        }
        if v[i] == from {
            out.append(to);
        } else {
            out.push(v[i]);
        }
        i = i + 1;
    }
    assert(v@.take(i as int) =~= v@);
    out
}

/// The character for a decimal digit.
pub open spec fn digit(n: nat) -> char {
    (('0' as int) + n) as char
}

/// `n` in decimal, without leading zeros.
pub open spec fn decimal(n: nat) -> Seq<char>
    decreases n,
{
    if n < 10 {
        seq![digit(n)]
    } else {
        decimal(n / 10).push(digit(n % 10))
    }
}

fn digit_char(n: u64) -> (r: char)
    requires
        n < 10,
    ensures
        r == digit(n as nat),
{
    match n {
        0 => '0',
        1 => '1',
        2 => '2',
        3 => '3',
        4 => '4',
        5 => '5',
        6 => '6',
        7 => '7',
        8 => '8',
        _ => '9',
    }
}

/// Renders a number in decimal.
pub fn number(n: u64) -> (r: String)
    ensures
        r@ == decimal(n as nat),
    decreases n,
{
    if n < 10 {
        let mut out = String::new();
        out.push(digit_char(n));
        assert(out@ =~= seq![digit(n as nat)]);
        out
    } else {
        let mut out = number(n / 10);
        out.push(digit_char(n % 10));
        out
    }
}

/// Renders a large number in decimal.
pub fn large_number(n: u128) -> (r: String)
    ensures
        r@ == decimal(n as nat),
    decreases n,
{
    if n < 10 {
        let mut out = String::new();
        out.push(digit_char(n as u64));
        assert(out@ =~= seq![digit(n as nat)]);
        out
    } else {
        let mut out = large_number(n / 10);
        out.push(digit_char((n % 10) as u64));
        out
    }
}

/// The character for a hexadecimal digit.
pub open spec fn hex_digit(n: nat) -> char {
    if n < 10 {
        digit(n)
    } else {
        (('a' as int) + n - 10) as char
    }
}

/// `n` in hexadecimal, in small letters and without leading zeros.
pub open spec fn hexadecimal(n: nat) -> Seq<char>
    decreases n,
{
    if n < 16 {
        seq![hex_digit(n)]
    } else {
        hexadecimal(n / 16).push(hex_digit(n % 16))
    }
}

fn hex_char(n: u64) -> (r: char)
    requires
        n < 16,
    ensures
        r == hex_digit(n as nat),
{
    match n {
        10 => 'a',
        11 => 'b',
        12 => 'c',
        13 => 'd',
        14 => 'e',
        15 => 'f',
        _ => digit_char(n),
    }
}

/// Renders a number in hexadecimal.
pub fn hex(n: u64) -> (r: String)
    ensures
        r@ == hexadecimal(n as nat),
    decreases n,
{
    if n < 16 {
        let mut out = String::new();
        out.push(hex_char(n));
        assert(out@ =~= seq![hex_digit(n as nat)]);
        out
    } else {
        let mut out = hex(n / 16);
        out.push(hex_char(n % 16));
        out
    }
}

/// Whether `c` is one of `0` to `9`.
pub open spec fn ascii_digit(c: char) -> bool {
    '0' <= c <= '9'
}

pub open spec fn ascii_upper(c: char) -> bool {
    'A' <= c <= 'Z'
}

pub open spec fn ascii_lower(c: char) -> bool {
    'a' <= c <= 'z'
}

pub open spec fn ascii_alphanumeric(c: char) -> bool {
    ascii_digit(c) || ascii_upper(c) || ascii_lower(c)
}

/// The number that a row of digits stands for.
pub open spec fn digits_value(s: Seq<char>) -> nat
    decreases s.len(),
{
    if s.len() == 0 {
        0
    } else {
        digits_value(s.drop_last()) * 10 + ((s.last() as int) - ('0' as int)) as nat
    }
}

/// Whether `s` is a nonempty row of decimal digits.
pub open spec fn all_digits(s: Seq<char>) -> bool {
    s.len() > 0 && forall|i: int| 0 <= i < s.len() ==> ascii_digit(#[trigger] s[i])
}

/// `s` without one leading plus sign.
pub open spec fn without_plus(s: Seq<char>) -> Seq<char> {
    if s.len() > 0 && s[0] == '+' {
        s.drop_first()
    } else {
        s
    }
}

/// The unsigned number that `s` denotes, if it denotes one that is at most `max`: an optional
/// plus sign and at least one digit.
pub open spec fn parsed_unsigned(s: Seq<char>, max: nat) -> Option<nat> {
    let t = without_plus(s);
    if all_digits(t) && digits_value(t) <= max {
        Some(digits_value(t))
    } else {
        None
    }
}

proof fn lemma_digits_prefix(s: Seq<char>, n: int)
    requires
        0 <= n <= s.len(),
    ensures
        digits_value(s.take(n)) <= digits_value(s),
    decreases s.len() - n,
{
    if n < s.len() {
        lemma_digits_prefix(s, n + 1);
        assert(s.take(n + 1).drop_last() =~= s.take(n));
    } else {
        assert(s.take(n) =~= s);
    }
}

/// Reads an unsigned number of at most `max`.
pub fn parse_unsigned(s: &str, max: u64) -> (r: Option<u64>)
    ensures
        match r {
            Some(n) => parsed_unsigned(s@, max as nat) == Some(n as nat),
            None => parsed_unsigned(s@, max as nat) is None,
        },
{
    let v = to_chars(s);
    let start: usize = if v.len() > 0 && v[0] == '+' {
        1
    } else {
        0
    };
    let ghost t = without_plus(s@);
    assert(t =~= v@.skip(start as int));
    if start == v.len() {
        return None;
    }
    let mut n: u64 = 0;
    let mut i: usize = start;
    while i < v.len()
        invariant
            v@ == s@,
            t == v@.skip(start as int),
            t == without_plus(s@),
            start <= i <= v.len(),
            n == digits_value(t.take(i - start)),
            n <= max,
            forall|j: int| 0 <= j < i - start ==> ascii_digit(#[trigger] t[j]),
        decreases v.len() - i,
    {
        let c: char = v[i];
        assert(c == t[i - start]);
        if !(c >= '0' && c <= '9') {
            assert(!ascii_digit(t[i - start]));
            return None;
        }
        let d: u64 = (c as u64) - 48;
        proof {
            assert(t.take(i - start + 1).drop_last() =~= t.take(i - start));
            lemma_digits_prefix(t, i - start + 1);
        }
        if n > max / 10 {
            return None;
        }
        if d > max - n * 10 {
            return None;
        }
        n = n * 10 + d;
        i = i + 1;
    }
    assert(t.take(i - start) =~= t);
    Some(n)
}

/// The decimal form of a number is a row of digits that stands for the number.
pub proof fn lemma_decimal(n: nat)
    ensures
        all_digits(decimal(n)),
        digits_value(decimal(n)) == n,
    decreases n,
{
    if n < 10 {
        let s = decimal(n);
        assert(s =~= seq![digit(n)]);
        assert(s.drop_last() =~= seq![]);
        assert(digits_value(seq![]) == 0);
        assert((digit(n) as int) - ('0' as int) == n);
    } else {
        lemma_decimal(n / 10);
        let s = decimal(n);
        assert(s.drop_last() =~= decimal(n / 10));
        assert((digit(n % 10) as int) - ('0' as int) == n % 10);
        assert(n == (n / 10) * 10 + n % 10);
        assert forall|i: int| 0 <= i < s.len() implies ascii_digit(#[trigger] s[i]) by {
            if i < s.len() - 1 {
                assert(s[i] == decimal(n / 10)[i]);
            }
        }
    }
}

/// Different numbers have different decimal forms.
pub proof fn lemma_decimal_distinct(a: nat, b: nat)
    requires
        decimal(a) == decimal(b),
    ensures
        a == b,
{
    lemma_decimal(a);
    lemma_decimal(b);
}

/// Whether every character is one of `0` to `9`, and there is at least one.
pub fn is_all_digits(s: &str) -> (r: bool)
    ensures
        r == all_digits(s@),
{
    let v = to_chars(s);
    if v.len() == 0 {
        return false;
    }
    let mut i: usize = 0;
    while i < v.len()
        invariant
            i <= v.len(),
            v@ == s@,
            v@.len() > 0,
            forall|j: int| 0 <= j < i ==> ascii_digit(#[trigger] v@[j]),
        decreases v.len() - i,
    {
        if !(v[i] >= '0' && v[i] <= '9') {
            assert(!ascii_digit(s@[i as int]));
            return false;
        }
        i = i + 1;
    }
    true
}

/// The small letter of a capital ASCII letter; any other character as it is.
pub open spec fn ascii_lower_of(c: char) -> char {
    if ascii_upper(c) {
        ((c as int) + 32) as char
    } else {
        c
    }
}

fn to_ascii_lower(c: char) -> (r: char)
    ensures
        r == ascii_lower_of(c),
{
    if c >= 'A' && c <= 'Z' {
        ((c as u8) + 32) as char
    } else {
        c
    }
}

/// Turns capital ASCII letters into small ones.
pub fn to_ascii_lowercase(s: &str) -> (r: String)
    ensures
        r@ == s@.map_values(|c: char| ascii_lower_of(c)),
{
    let v = to_chars(s);
    let mut out = String::new();
    let mut i: usize = 0;
    while i < v.len()
        invariant
            i <= v.len(),
            v@ == s@,
            out@ == s@.take(i as int).map_values(|c: char| ascii_lower_of(c)),
        decreases v.len() - i,
    {
        out.push(to_ascii_lower(v[i]));
        assert(out@ =~= s@.take(i + 1).map_values(|c: char| ascii_lower_of(c)));
        i = i + 1;
    }
    assert(s@.take(i as int) =~= s@);
    out
}

/// Whether a list of strings holds a given one.
pub fn list_contains(list: &[String], s: &str) -> (r: bool)
    ensures
        r == views(list@).contains(s@),
{
    let mut i: usize = 0;
    while i < list.len()
        invariant
            i <= list@.len(),
            forall|j: int| 0 <= j < i ==> (#[trigger] list@[j])@ != s@,
        decreases list@.len() - i,
    {
        if same(list[i].as_str(), s) {
            assert(views(list@)[i as int] == s@);
            return true;
        }
        i = i + 1;
    }
    assert forall|j: int| 0 <= j < views(list@).len() implies views(list@)[j] != s@ by {
        assert(views(list@)[j] == list@[j]@);
    }
    false
}

/// Copies a list of strings.
pub fn copy_list(list: &[String]) -> (r: Vec<String>)
    ensures
        r@ == list@,
{
    let mut out: Vec<String> = Vec::new();
    let mut i: usize = 0;
    while i < list.len()
        invariant
            i <= list@.len(),
            out@ == list@.take(i as int),
        decreases list@.len() - i,
    {
        out.push(list[i].clone());
        i = i + 1;
    }
    assert(list@.take(i as int) =~= list@);
    out
}

/// A flag with its value, or nothing where there is no value.
pub open spec fn flag_pair(flag: Seq<char>, value: Option<Seq<char>>) -> Seq<Seq<char>> {
    match value {
        Some(v) => seq![flag, v],
        None => seq![],
    }
}

/// Adds a word to an argument list.
pub fn push_word(out: &mut Vec<String>, word: &str)
    ensures
        views(final(out)@) == views(old(out)@).push(word@),
{
    out.push(word.to_owned());
    assert(views(out@) =~= views(old(out)@).push(word@));
}

/// Adds a flag and its value to an argument list.
pub fn push_pair(out: &mut Vec<String>, flag: &str, value: &str)
    ensures
        views(final(out)@) == views(old(out)@) + seq![flag@, value@],
{
    push_word(out, flag);
    push_word(out, value);
    assert(views(out@) =~= views(old(out)@) + seq![flag@, value@]);
}

/// Adds a flag and its value to an argument list, where there is a value.
pub fn push_flag(out: &mut Vec<String>, flag: &str, value: Option<&str>)
    ensures
        views(final(out)@) == views(old(out)@) + flag_pair(flag@, opt_str_view(value)),
{
    match value {
        Some(v) => push_pair(out, flag, v),
        None => {
            assert(views(out@) =~= views(old(out)@) + flag_pair(flag@, None));
        },
    }
}

/// Borrows an optional string.
pub fn borrowed(s: &Option<String>) -> (r: Option<&str>)
    ensures
        opt_str_view(r) == opt_view(*s),
{
    match s {
        Some(t) => Some(t.as_str()),
        None => None,
    }
}

/// `n` times the character `c`.
pub open spec fn repeated(c: char, n: nat) -> Seq<char> {
    Seq::new(n, |i: int| c)
}

/// `s` with spaces behind it that fill up to `width` characters. A longer string stays as it is.
pub open spec fn padded(s: Seq<char>, width: nat) -> Seq<char> {
    if s.len() >= width {
        s
    } else {
        s + repeated(' ', (width - s.len()) as nat)
    }
}

/// Adds the same character `n` times.
pub fn push_repeated(out: &mut String, c: char, n: usize)
    ensures
        final(out)@ == old(out)@ + repeated(c, n as nat),
{
    let ghost start = out@;
    let mut i: usize = 0;
    assert(out@ =~= start + repeated(c, 0));
    while i < n
        invariant
            i <= n,
            out@ == start + repeated(c, i as nat),
        decreases n - i,
    {
        out.push(c);
        assert(out@ =~= start + repeated(c, (i + 1) as nat));
        i = i + 1;
    }
}

/// Fills a string up with spaces.
pub fn pad(s: &str, width: usize) -> (r: String)
    ensures
        r@ == padded(s@, width as nat),
{
    let n: usize = s.unicode_len();
    let mut out = s.to_owned();
    if n < width {
        push_repeated(&mut out, ' ', width - n);
    }
    out
}

/// Whether a list of arguments gives `flag` the value `value`: the one stands right before the
/// other.
pub open spec fn gives(args: Seq<Seq<char>>, flag: Seq<char>, value: Seq<char>) -> bool {
    exists|i: int| 0 <= i < args.len() - 1 && #[trigger] args[i] == flag && args[i + 1] == value
}

/// An argument that stands right before another gives it as its value.
pub proof fn lemma_gives(args: Seq<Seq<char>>, i: int)
    requires
        0 <= i < args.len() - 1,
    ensures
        gives(args, args[i], args[i + 1]),
{
}

/// What stands between two texts occurs in the whole.
pub proof fn lemma_occurs_between(before: Seq<char>, needle: Seq<char>, after: Seq<char>)
    ensures
        occurs_in(needle, before + needle + after),
{
    let whole = before + needle + after;
    let i = before.len() as int;
    assert(whole.subrange(i, i + needle.len()) =~= needle);
    assert(occurs_at(needle, whole, i));
}

/// What occurs in a part occurs in the whole.
pub proof fn lemma_occurs_within(before: Seq<char>, needle: Seq<char>, part: Seq<char>, after: Seq<char>)
    requires
        occurs_in(needle, part),
    ensures
        occurs_in(needle, before + part + after),
{
    let whole = before + part + after;
    let i = choose|i: int| #[trigger] occurs_at(needle, part, i);
    let j = before.len() + i;
    assert(whole.subrange(j, j + needle.len()) =~= part.subrange(i, i + needle.len()));
    assert(occurs_at(needle, whole, j));
}

/// A number that is written in decimal is read back as that number.
pub proof fn law_number_is_read_back(n: nat, max: nat)
    requires
        n <= max,
    ensures
        parsed_unsigned(decimal(n), max) == Some(n),
{
    lemma_decimal(n);
    assert(ascii_digit(decimal(n)[0]));
}

/// What a part of a list of arguments gives, the whole list gives.
pub proof fn lemma_gives_join(a: Seq<Seq<char>>, b: Seq<Seq<char>>)
    ensures
        forall|flag: Seq<char>, value: Seq<char>|
            gives(a, flag, value) ==> #[trigger] gives(a + b, flag, value),
        forall|flag: Seq<char>, value: Seq<char>|
            gives(b, flag, value) ==> #[trigger] gives(a + b, flag, value),
{
    let whole = a + b;
    assert forall|flag: Seq<char>, value: Seq<char>|
        gives(a, flag, value) implies #[trigger] gives(a + b, flag, value) by {
        let i = choose|i: int|
            0 <= i < a.len() - 1 && #[trigger] a[i] == flag && a[i + 1] == value;
        assert(whole[i] == flag && whole[i + 1] == value);
    }
    assert forall|flag: Seq<char>, value: Seq<char>|
        gives(b, flag, value) implies #[trigger] gives(a + b, flag, value) by {
        let i = choose|i: int|
            0 <= i < b.len() - 1 && #[trigger] b[i] == flag && b[i + 1] == value;
        let j = a.len() + i;
        assert(whole[j] == flag && whole[j + 1] == value);
    }
}

/// A flag with a value gives that value.
pub proof fn lemma_flag_pair_gives(flag: Seq<char>, value: Option<Seq<char>>)
    ensures
        value matches Some(v) ==> gives(flag_pair(flag, value), flag, v),
        flag_pair(flag, value).len() == if value is Some {
            2nat
        } else {
            0nat
        },
{
    if value is Some {
        lemma_gives(flag_pair(flag, value), 0);
    }
}

/// A text without whitespace at either end is left as it is.
pub proof fn lemma_trimmed_is(s: Seq<char>)
    requires
        s.len() > 0,
        !whitespace(s[0]),
        !whitespace(s.last()),
    ensures
        trimmed(s) == s,
        trim_start(s) == s,
        trim_end(s) == s,
{
}

proof fn lemma_trim_start(s: Seq<char>)
    ensures
        trim_start(s).len() <= s.len(),
        trim_start(s) == s.skip(s.len() - trim_start(s).len()),
        trim_start(s).len() > 0 ==> !whitespace(trim_start(s)[0]),
        forall|i: int| 0 <= i < s.len() - trim_start(s).len() ==> whitespace(#[trigger] s[i]),
    decreases s.len(),
{
    if s.len() > 0 && whitespace(s[0]) {
        let rest = s.drop_first();
        lemma_trim_start(rest);
        let n = s.len() - trim_start(s).len();
        assert(trim_start(s) =~= s.skip(n));
        assert forall|i: int| 0 <= i < n implies whitespace(#[trigger] s[i]) by {
            if i > 0 {
                assert(s[i] == rest[i - 1]);
            }
        }
    } else {
        assert(s.skip(0) =~= s);
    }
}

proof fn lemma_trim_end(s: Seq<char>)
    ensures
        trim_end(s).len() <= s.len(),
        trim_end(s) == s.take(trim_end(s).len() as int),
        trim_end(s).len() > 0 ==> !whitespace(trim_end(s).last()),
        forall|i: int| trim_end(s).len() <= i < s.len() ==> whitespace(#[trigger] s[i]),
    decreases s.len(),
{
    if s.len() > 0 && whitespace(s.last()) {
        let rest = s.drop_last();
        lemma_trim_end(rest);
        assert(trim_end(s) =~= s.take(trim_end(s).len() as int));
        assert forall|i: int| trim_end(s).len() <= i < s.len() implies whitespace(
            #[trigger] s[i],
        ) by {
            if i < rest.len() {
                assert(s[i] == rest[i]);
            }
        }
    } else {
        assert(s.take(s.len() as int) =~= s);
    }
}

/// Trimming cuts whitespace off both ends, as much of it as there is, and nothing else: a text is
/// whitespace, its trimmed self, and whitespace again.
pub proof fn law_trimming_cuts_only_whitespace(s: Seq<char>)
    ensures
        exists|before: Seq<char>, after: Seq<char>|
            {
                &&& s == #[trigger] (before + trimmed(s) + after)
                &&& forall|i: int| 0 <= i < before.len() ==> whitespace(#[trigger] before[i])
                &&& forall|i: int| 0 <= i < after.len() ==> whitespace(#[trigger] after[i])
            },
        trimmed(s).len() > 0 ==> !whitespace(trimmed(s)[0]) && !whitespace(trimmed(s).last()),
        whitespace(' ') && whitespace('\t') && whitespace('\n') && whitespace('\r'),
        forall|c: char|
            'a' <= c <= 'z' || 'A' <= c <= 'Z' || '0' <= c <= '9' ==> !#[trigger] whitespace(c),
{
    lemma_trim_start(s);
    let mid = trim_start(s);
    lemma_trim_end(mid);
    let n = s.len() - mid.len();
    let before = s.take(n);
    let after = mid.skip(trimmed(s).len() as int);
    assert(s =~= before + trimmed(s) + after);
    assert forall|i: int| 0 <= i < after.len() implies whitespace(#[trigger] after[i]) by {
        assert(after[i] == mid[i + trimmed(s).len()]);
    }
    assert forall|i: int| 0 <= i < before.len() implies whitespace(#[trigger] before[i]) by {
        assert(before[i] == s[i]);
    }
}

/// The pieces of a text between separators, in one text again with the separator between them.
pub open spec fn joined_by(pieces: Seq<Seq<char>>, c: char) -> Seq<char>
    decreases pieces.len(),
{
    if pieces.len() == 0 {
        seq![]
    } else if pieces.len() == 1 {
        pieces[0]
    } else {
        pieces[0].push(c) + joined_by(pieces.drop_first(), c)
    }
}

/// Splitting a text loses nothing: with the separator between them the pieces are the text, and no
/// piece holds the separator.
pub proof fn law_splitting_is_undone_by_joining(s: Seq<char>, c: char)
    ensures
        split_at_all(s, c).len() > 0,
        joined_by(split_at_all(s, c), c) == s,
        forall|i: int|
            0 <= i < split_at_all(s, c).len() ==> !(#[trigger] split_at_all(s, c)[i]).contains(c),
    decreases s.len(),
{
    let i = first_index(s, c);
    lemma_first_index(s, c);
    let pieces = split_at_all(s, c);
    if i < s.len() {
        let rest = s.skip(i + 1);
        law_splitting_is_undone_by_joining(rest, c);
        assert(pieces.drop_first() =~= split_at_all(rest, c));
        assert(pieces[0] == s.take(i));
        assert(s =~= s.take(i).push(c) + rest);
        assert forall|k: int| 0 <= k < pieces.len() implies !(#[trigger] pieces[k]).contains(c) by {
            if k == 0 {
                if s.take(i).contains(c) {
                    let m = choose|m: int| 0 <= m < i && s.take(i)[m] == c;
                    assert(s[m] == c);
                }
            } else {
                assert(pieces[k] == split_at_all(rest, c)[k - 1]);
            }
        }
    }
}

/// A text starts with its first part and ends with its last.
pub proof fn lemma_ends(head: Seq<char>, middle: Seq<char>, tail: Seq<char>)
    ensures
        head.is_prefix_of(head + middle + tail),
        (head + middle).is_prefix_of(head + middle + tail),
        tail.is_suffix_of(head + middle + tail),
        occurs_in(middle, head + middle + tail),
{
    let whole = head + middle + tail;
    assert(head =~= whole.subrange(0, head.len() as int));
    assert(head + middle =~= whole.subrange(0, (head.len() + middle.len()) as int));
    assert(tail =~= whole.subrange(whole.len() - tail.len(), whole.len() as int));
    lemma_occurs_between(head, middle, tail);
}

/// A text is read line by line: what stands before its first newline is its first line, without a
/// carriage return at its end, and the rest is read in the same way. No line holds a newline.
pub proof fn law_first_line_comes_first(line: Seq<char>, rest: Seq<char>)
    requires
        !line.contains('\n'),
    ensures
        lines_of(line + seq!['\n'] + rest).len() == lines_of(rest).len() + 1,
        line.len() > 0 && line.last() == '\r' ==> lines_of(line + seq!['\n'] + rest)[0]
            == line.drop_last(),
        line.len() == 0 || line.last() != '\r' ==> lines_of(line + seq!['\n'] + rest)[0] == line,
        lines_of(line + seq!['\n'] + rest).drop_first() == lines_of(rest),
        line.len() > 0 ==> lines_of(line) == seq![line],
{
    let whole = line + seq!['\n'] + rest;
    let n = line.len() as int;
    assert(whole[n] == '\n');
    assert forall|j: int| 0 <= j < n implies whole[j] != '\n' by {
        assert(line.contains(line[j]));
    }
    lemma_first_index_is(whole, '\n', n);
    assert(whole.take(n) =~= line);
    assert(whole.skip(n + 1) =~= rest);
    assert(lines_of(whole).drop_first() =~= lines_of(rest));
    lemma_first_index(line, '\n');
}

/// The value of a hexadecimal digit.
pub open spec fn hex_value(c: char) -> nat {
    if '0' <= c <= '9' {
        ((c as int) - ('0' as int)) as nat
    } else {
        ((c as int) - ('a' as int) + 10) as nat
    }
}

/// The number that a row of hexadecimal digits stands for.
pub open spec fn hex_number(s: Seq<char>) -> nat
    decreases s.len(),
{
    if s.len() == 0 {
        0
    } else {
        hex_number(s.drop_last()) * 16 + hex_value(s.last())
    }
}

/// A number that is written in hexadecimal digits is read back as that number; the digits are
/// `0` to `9` and `a` to `f`, and there is no leading zero but for zero itself.
pub proof fn law_hexadecimal_is_read_back(n: nat)
    ensures
        hexadecimal(n).len() > 0,
        hex_number(hexadecimal(n)) == n,
        forall|i: int|
            0 <= i < hexadecimal(n).len() ==> {
                ||| '0' <= #[trigger] hexadecimal(n)[i] <= '9'
                ||| 'a' <= hexadecimal(n)[i] <= 'f'
            },
        n > 0 ==> hexadecimal(n)[0] != '0',
    decreases n,
{
    if n >= 16 {
        let before = hexadecimal(n / 16);
        law_hexadecimal_is_read_back(n / 16);
        assert(hexadecimal(n).drop_last() =~= before);
        assert(hexadecimal(n).last() == hex_digit(n % 16));
        assert(hex_value(hex_digit(n % 16)) == n % 16);
        assert forall|i: int| 0 <= i < hexadecimal(n).len() implies {
            ||| '0' <= #[trigger] hexadecimal(n)[i] <= '9'
            ||| 'a' <= hexadecimal(n)[i] <= 'f'
        } by {
            if i < before.len() {
                assert(hexadecimal(n)[i] == before[i]);
            }
        }
        assert(hexadecimal(n)[0] == before[0]);
    } else {
        let one = hexadecimal(n);
        assert(one.drop_last() =~= seq![]);
        assert(hex_number(one.drop_last()) == 0);
        assert(hex_value(hex_digit(n)) == n);
    }
}

} // verus!
