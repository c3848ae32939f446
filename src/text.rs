//! Character-level text helpers: marker search and whitespace trimming.
use vstd::prelude::*;
use vstd::string::StrSliceExecFns;

verus! {

/// `m` occurs in `s` starting at index `i`.
pub open spec fn occurs_at(s: Seq<char>, m: Seq<char>, i: int) -> bool {
    0 <= i && i + m.len() <= s.len() && s.subrange(i, i + m.len()) == m
}

/// Index of the first occurrence of `m` in `s` at or after `i`, or -1.
pub open spec fn find_from(s: Seq<char>, m: Seq<char>, i: int) -> int
    decreases s.len() + 1 - i,
{
    if i < 0 || i + m.len() > s.len() {
        -1
    } else if occurs_at(s, m, i) {
        i
    } else {
        find_from(s, m, i + 1)
    }
}

/// `s` contains `m` as a substring.
pub open spec fn contains(s: Seq<char>, m: Seq<char>) -> bool {
    find_from(s, m, 0) >= 0
}

/// Unicode `White_Space`, the set that `char::is_whitespace` tests.
pub open spec fn is_ws(c: char) -> bool {
    c == ' ' || ('\t' <= c && c <= '\r') || c == '\u{85}' || c == '\u{a0}' || c == '\u{1680}'
        || ('\u{2000}' <= c && c <= '\u{200a}') || c == '\u{2028}' || c == '\u{2029}'
        || c == '\u{202f}' || c == '\u{205f}' || c == '\u{3000}'
}

pub open spec fn trim_start(s: Seq<char>) -> Seq<char>
    decreases s.len(),
{
    if s.len() > 0 && is_ws(s[0]) {
        trim_start(s.drop_first())
    } else {
        s
    }
}

pub open spec fn trim_end(s: Seq<char>) -> Seq<char>
    decreases s.len(),
{
    if s.len() > 0 && is_ws(s.last()) {
        trim_end(s.drop_last())
    } else {
        s
    }
}

/// `s` without leading and trailing whitespace.
pub open spec fn trim(s: Seq<char>) -> Seq<char> {
    trim_end(trim_start(s))
}

/// The text after the first occurrence of `m` up to its next occurrence (or the end).
pub open spec fn piece_after(s: Seq<char>, m: Seq<char>) -> Seq<char> {
    let start = find_from(s, m, 0) + m.len();
    let next = find_from(s, m, start);
    if next < 0 {
        s.subrange(start, s.len() as int)
    } else {
        s.subrange(start, next)
    }
}

/// Whether `c` is whitespace.
pub fn char_is_ws(c: char) -> (r: bool)
    ensures
        r == is_ws(c),
{
    c == ' ' || ('\t' <= c && c <= '\r') || c == '\u{85}' || c == '\u{a0}' || c == '\u{1680}'
        || ('\u{2000}' <= c && c <= '\u{200a}') || c == '\u{2028}' || c == '\u{2029}'
        || c == '\u{202f}' || c == '\u{205f}' || c == '\u{3000}'
}

/// Whether `m` occurs in `s` at index `i`.
pub fn matches_at(s: &str, m: &str, i: usize) -> (r: bool)
    ensures
        r == occurs_at(s@, m@, i as int),
{
    let n = s.unicode_len();
    let k = m.unicode_len();
    if i > n || k > n - i {
        return false;
    }
    let mut j: usize = 0;
    while j < k
        invariant
            n == s@.len(),
            k == m@.len(),
            i + k <= n,
            j <= k,
            s@.subrange(i as int, i + j) == m@.subrange(0, j as int),
        decreases k - j,
    {
        if s.get_char(i + j) != m.get_char(j) {
            assert(s@.subrange(i as int, i + k)[j as int] != m@[j as int]);
            return false;
        }
        assert(s@.subrange(i as int, i + j + 1) == m@.subrange(0, j + 1));
        j = j + 1;
    }
    assert(m@.subrange(0, k as int) == m@);
    true
}

/// Index of the first occurrence of `m` in `s` at or after `from`.
pub fn find_marker(s: &str, m: &str, from: usize) -> (r: Option<usize>)
    ensures
        match r {
            Some(i) => find_from(s@, m@, from as int) == i as int && from <= i && i + m@.len()
                <= s@.len(),
            None => find_from(s@, m@, from as int) == -1,
        },
{
    let n = s.unicode_len();
    let k = m.unicode_len();
    let mut i = from;
    loop
        invariant
            n == s@.len(),
            k == m@.len(),
            from <= i,
            find_from(s@, m@, from as int) == find_from(s@, m@, i as int),
        decreases n + 1 - i,
    {
        if i > n || k > n - i {
            return None;
        }
        if matches_at(s, m, i) {
            return Some(i);
        }
        if i == n {
            assert(find_from(s@, m@, i + 1) == -1);
            return None;
        }
        i = i + 1;
    }
}

/// Whether `m` occurs anywhere in `s`.
pub fn contains_marker(s: &str, m: &str) -> (r: bool)
    ensures
        r == contains(s@, m@),
{
    find_marker(s, m, 0).is_some()
}

proof fn lemma_trim_start_from(s: Seq<char>, i: int)
    requires
        0 <= i < s.len(),
        is_ws(s[i]),
    ensures
        trim_start(s.subrange(i, s.len() as int)) == trim_start(s.subrange(i + 1, s.len() as int)),
{
    assert(s.subrange(i, s.len() as int).drop_first() == s.subrange(i + 1, s.len() as int));
}

proof fn lemma_trim_end_to(s: Seq<char>, j: int)
    requires
        0 < j <= s.len(),
        is_ws(s[j - 1]),
    ensures
        trim_end(s.subrange(0, j)) == trim_end(s.subrange(0, j - 1)),
{
    assert(s.subrange(0, j).drop_last() == s.subrange(0, j - 1));
}

/// Copy of `s[from..to]` with leading and trailing whitespace removed.
pub fn trimmed_piece(s: &str, from: usize, to: usize) -> (r: String)
    requires
        from <= to <= s@.len(),
    ensures
        r@ == trim(s@.subrange(from as int, to as int)),
{
    let ghost p = s@.subrange(from as int, to as int);
    let mut a = from;
    while a < to && char_is_ws(s.get_char(a))
        invariant
            from <= a <= to <= s@.len(),
            p == s@.subrange(from as int, to as int),
            trim_start(p) == trim_start(s@.subrange(a as int, to as int)),
        decreases to - a,
    {
        proof {
            let q = s@.subrange(from as int, to as int);
            assert(s@.subrange(a as int, to as int) == q.subrange(a - from, q.len() as int));
            assert(s@.subrange(a + 1, to as int) == q.subrange(a - from + 1, q.len() as int));
            lemma_trim_start_from(q, a - from);
        }
        a = a + 1;
    }
    let ghost t = s@.subrange(a as int, to as int);
    assert(trim_start(p) == t);
    let mut b = to;
    while b > a && char_is_ws(s.get_char(b - 1))
        invariant
            from <= a <= b <= to <= s@.len(),
            t == s@.subrange(a as int, to as int),
            trim_end(t) == trim_end(s@.subrange(a as int, b as int)),
        decreases b - a,
    {
        proof {
            assert(s@.subrange(a as int, b as int) == t.subrange(0, b - a));
            assert(s@.subrange(a as int, b - 1) == t.subrange(0, b - 1 - a));
            lemma_trim_end_to(t, b - a);
        }
        b = b - 1;
    }
    let r = s.substring_char(a, b).to_owned();
    r
}

} // verus!
