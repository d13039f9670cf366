//! Character-level views of commit messages: leading whitespace, prefixes, substrings and
//! the first line of a message.

use vstd::prelude::*;

verus! {

broadcast use vstd::string::group_string_axioms;

/// Whether `c` has the Unicode `White_Space` property, which is what `char::is_whitespace`
/// and `str::trim_start` go by.
pub open spec fn is_white_space(c: char) -> bool {
    ||| '\t' <= c <= '\r'
    ||| c == ' '
    ||| c == '\u{85}'
    ||| c == '\u{A0}'
    ||| c == '\u{1680}'
    ||| '\u{2000}' <= c <= '\u{200A}'
    ||| c == '\u{2028}'
    ||| c == '\u{2029}'
    ||| c == '\u{202F}'
    ||| c == '\u{205F}'
    ||| c == '\u{3000}'
}

/// `s` without its leading whitespace.
pub open spec fn trim_start(s: Seq<char>) -> Seq<char>
    decreases s.len(),
{
    if s.len() > 0 && is_white_space(s[0]) {
        trim_start(s.drop_first())
    } else {
        s
    }
}

/// Whether `s` begins with `prefix`.
pub open spec fn starts_with(s: Seq<char>, prefix: Seq<char>) -> bool {
    prefix.len() <= s.len() && s.subrange(0, prefix.len() as int) == prefix
}

/// Whether `pattern` occurs in `s` at position `i`.
pub open spec fn occurs_at(s: Seq<char>, pattern: Seq<char>, i: int) -> bool {
    0 <= i && i + pattern.len() <= s.len() && s.subrange(i, i + pattern.len()) == pattern
}

/// Whether `pattern` occurs anywhere in `s`.
pub open spec fn contains(s: Seq<char>, pattern: Seq<char>) -> bool {
    exists|i: int| occurs_at(s, pattern, i)
}

/// Index of the first line feed in `s`, or the length of `s` when it holds none.
pub open spec fn line_end(s: Seq<char>) -> int
    decreases s.len(),
{
    if s.len() == 0 || s[0] == '\n' {
        0
    } else {
        1 + line_end(s.drop_first())
    }
}

/// The first line of `s`, as `str::lines` yields it: everything before the first line
/// feed, without a carriage return just before that line feed. Without a line feed, all
/// of `s`.
pub open spec fn first_line(s: Seq<char>) -> Seq<char> {
    let k = line_end(s);
    if 0 < k < s.len() && s[k - 1] == '\r' {
        s.take(k - 1)
    } else {
        s.take(k)
    }
}

/// `line_end` points at the first line feed, or at the end.
pub proof fn lemma_line_end(s: Seq<char>)
    ensures
        0 <= line_end(s) <= s.len(),
        line_end(s) < s.len() ==> s[line_end(s)] == '\n',
        forall|j: int| 0 <= j < line_end(s) ==> s[j] != '\n',
    decreases s.len(),
{
    if s.len() > 0 && s[0] != '\n' {
        lemma_line_end(s.drop_first());
        assert forall|j: int| 0 <= j < line_end(s) implies s[j] != '\n' by {
            if j > 0 {
                assert(s[j] == s.drop_first()[j - 1]);
            }
        }
    }
}

/// The first line of a message holds no line feed.
pub proof fn lemma_first_line_has_no_line_feed(s: Seq<char>)
    ensures
        !first_line(s).contains('\n'),
        first_line(s).len() <= s.len(),
{
    lemma_line_end(s);
    let l = first_line(s);
    if l.contains('\n') {
        let j = choose|j: int| 0 <= j < l.len() && l[j] == '\n';
        assert(s[j] == '\n');
    }
}

/// The first line is the start of `s` up to its first line feed, or up to a carriage
/// return and line feed there; it is all of `s` when `s` holds no line feed.
pub proof fn lemma_first_line_reaches_line_feed(s: Seq<char>)
    ensures
        first_line(s).len() <= s.len(),
        first_line(s) == s.take(first_line(s).len() as int),
        !first_line(s).contains('\n'),
        !s.contains('\n') ==> first_line(s) == s,
        s.contains('\n') ==> {
            let n = first_line(s).len() as int;
            ||| s[n] == '\n' && !(n > 0 && s[n - 1] == '\r')
            ||| n + 1 < s.len() && s[n] == '\r' && s[n + 1] == '\n'
        },
{
    lemma_line_end(s);
    lemma_first_line_has_no_line_feed(s);
    let k = line_end(s);
    if !s.contains('\n') {
        if k < s.len() {
            assert(s[k] == '\n');
        }
        assert(first_line(s) =~= s);
    }
    if s.contains('\n') {
        let j = choose|j: int| 0 <= j < s.len() && s[j] == '\n';
        assert(k < s.len());
    }
}

/// Executable form of [`is_white_space`].
pub fn is_whitespace_char(c: char) -> (b: bool)
    ensures
        b == is_white_space(c),
{
    ('\t' <= c && c <= '\r') || c == ' ' || c == '\u{85}' || c == '\u{A0}' || c == '\u{1680}'
        || ('\u{2000}' <= c && c <= '\u{200A}') || c == '\u{2028}' || c == '\u{2029}'
        || c == '\u{202F}' || c == '\u{205F}' || c == '\u{3000}'
}

/// The characters of `s`, in order.
pub fn chars_of(s: &str) -> (v: Vec<char>)
    ensures
        v@ == s@,
{
    let mut v: Vec<char> = Vec::new();
    for c in it: s.chars()
        invariant
            v@ == it.seq().take(it.index() as int),
    {
        v.push(c);
    }
    v
}

/// Number of whitespace characters at the start of `s`.
pub fn leading_whitespace_len(s: &[char]) -> (k: usize)
    ensures
        k <= s@.len(),
        trim_start(s@) == s@.skip(k as int),
{
    let mut i: usize = 0;
    assert(s@.skip(0) =~= s@);
    while i < s.len() && is_whitespace_char(s[i])
        invariant
            i <= s@.len(),
            trim_start(s@) == trim_start(s@.skip(i as int)),
        decreases s@.len() - i,
    {
        assert(s@.skip(i as int).drop_first() =~= s@.skip(i + 1));
        i = i + 1;
    }
    i
}

/// Whether `pattern` occurs in `s` at position `start`.
pub fn occurs_at_index(s: &[char], pattern: &[char], start: usize) -> (b: bool)
    ensures
        b == occurs_at(s@, pattern@, start as int),
{
    if start > s.len() || pattern.len() > s.len() - start {
        return false;
    }
    let mut j: usize = 0;
    while j < pattern.len()
        invariant
            start + pattern@.len() <= s@.len(),
            start + pattern.len() <= s.len(),
            j <= pattern@.len(),
            forall|m: int| 0 <= m < j ==> s@[start + m] == pattern@[m],
        decreases pattern@.len() - j,
    {
        if s[start + j] != pattern[j] {
            assert(s@.subrange(start as int, start + pattern@.len())[j as int] != pattern@[j as int]);
            return false;
        }
        j = j + 1;
    }
    assert(s@.subrange(start as int, start + pattern@.len()) =~= pattern@);
    true
}

/// Whether `pattern` occurs anywhere in `s`.
pub fn contains_chars(s: &[char], pattern: &[char]) -> (b: bool)
    ensures
        b == contains(s@, pattern@),
{
    if pattern.len() > s.len() {
        assert(!contains(s@, pattern@));
        return false;
    }
    let last = s.len() - pattern.len();
    let mut i: usize = 0;
    loop
        invariant
            last + pattern@.len() == s@.len(),
            i <= last,
            forall|m: int| 0 <= m < i ==> !occurs_at(s@, pattern@, m),
        ensures
            forall|m: int| 0 <= m <= last ==> !occurs_at(s@, pattern@, m),
        decreases last - i,
    {
        if occurs_at_index(s, pattern, i) {
            return true;
        }
        if i == last {
            break;
        }
        i = i + 1;
    }
    assert forall|m: int| !occurs_at(s@, pattern@, m) by {
        if 0 <= m <= last {
        }
    }
    false
}

/// Index of the first line feed in `s`, or its length when it holds none.
pub fn line_end_index(s: &[char]) -> (k: usize)
    ensures
        k == line_end(s@),
{
    let mut i: usize = 0;
    assert(s@.skip(0) =~= s@);
    while i < s.len() && s[i] != '\n'
        invariant
            i <= s@.len(),
            line_end(s@) == i + line_end(s@.skip(i as int)),
        decreases s@.len() - i,
    {
        assert(s@.skip(i as int).drop_first() =~= s@.skip(i + 1));
        i = i + 1;
    }
    i
}

} // verus!
