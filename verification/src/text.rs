//! Text primitives on sequences of code points: line splitting, substring
//! search and trimming.
//!
//! Every function here is stated over `Seq<char>` and proved; strings are
//! turned into `Vec<char>` once and worked on by index.

use vstd::prelude::*;

verus! {

/// Whether `c` carries the Unicode `White_Space` property.
pub open spec fn is_white_space(c: char) -> bool {
    let n = c as u32;
    ||| 0x09 <= n <= 0x0D
    ||| n == 0x20
    ||| n == 0x85
    ||| n == 0xA0
    ||| n == 0x1680
    ||| 0x2000 <= n <= 0x200A
    ||| n == 0x2028
    ||| n == 0x2029
    ||| n == 0x202F
    ||| n == 0x205F
    ||| n == 0x3000
}

/// The position of the first line feed of `s` at or after `i`, or `s.len()`
/// where there is none.
pub open spec fn newline_from(s: Seq<char>, i: int) -> int
    decreases s.len() - i,
{
    if i < 0 || i >= s.len() {
        s.len() as int
    } else if s[i] == '\n' {
        i
    } else {
        newline_from(s, i + 1)
    }
}

/// Where the text of a line ends that starts at `start` and is closed at `n`:
/// a carriage return directly before a closing line feed belongs to the line
/// ending, not to the line.
pub open spec fn line_text_end(s: Seq<char>, start: int, n: int) -> int {
    if n < s.len() && start < n && s[n - 1] == '\r' {
        n - 1
    } else {
        n
    }
}

/// The lines of `s` from position `start` on.
pub open spec fn lines_from(s: Seq<char>, start: int) -> Seq<Seq<char>>
    decreases s.len() - start,
{
    if start < 0 || start >= s.len() {
        Seq::empty()
    } else {
        let n = newline_from(s, start);
        let line = s.subrange(start, line_text_end(s, start, n));
        if start <= n < s.len() {
            seq![line] + lines_from(s, n + 1)
        } else {
            seq![line]
        }
    }
}

/// The lines of `s`. A line ends at a line feed or at a carriage return
/// followed by a line feed; the line ending is not part of the line, and the
/// last line need not have one. The empty text has no lines.
pub open spec fn lines(s: Seq<char>) -> Seq<Seq<char>> {
    lines_from(s, 0)
}

/// Whether `needle` occurs in `hay` at position `i`.
pub open spec fn occurs_at(hay: Seq<char>, needle: Seq<char>, i: int) -> bool {
    0 <= i && i + needle.len() <= hay.len() && hay.subrange(i, i + needle.len()) == needle
}

/// Whether `needle` occurs somewhere in `hay` as a run of consecutive code
/// points. The empty needle occurs in every text.
pub open spec fn contains(hay: Seq<char>, needle: Seq<char>) -> bool {
    exists|i: int| occurs_at(hay, needle, i)
}

/// The number of white-space code points at the front of `s`.
pub open spec fn leading_white_space(s: Seq<char>) -> int
    decreases s.len(),
{
    if s.len() == 0 || !is_white_space(s[0]) {
        0
    } else {
        1 + leading_white_space(s.skip(1))
    }
}

/// The number of white-space code points at the back of `s`.
pub open spec fn trailing_white_space(s: Seq<char>) -> int
    decreases s.len(),
{
    if s.len() == 0 || !is_white_space(s.last()) {
        0
    } else {
        1 + trailing_white_space(s.drop_last())
    }
}

/// `s` without the white space at its front and back.
pub open spec fn trim(s: Seq<char>) -> Seq<char> {
    let a = leading_white_space(s);
    if a == s.len() {
        Seq::empty()
    } else {
        s.subrange(a, s.len() - trailing_white_space(s))
    }
}

/// The first line of `s`, or the empty text where `s` has no line.
pub open spec fn first_line(s: Seq<char>) -> Seq<char> {
    if lines(s).len() > 0 {
        lines(s)[0]
    } else {
        Seq::empty()
    }
}

/// The view of an optional string.
pub open spec fn text_view(s: Option<String>) -> Option<Seq<char>> {
    match s {
        Some(t) => Some(t@),
        None => None,
    }
}

/// The views of a list of lines.
pub open spec fn line_views(v: Seq<Vec<char>>) -> Seq<Seq<char>> {
    v.map_values(|l: Vec<char>| l@)
}

/// `newline_from` finds the first line feed at or after `i`: no line feed
/// lies between `i` and what it returns.
pub proof fn lemma_newline_from_bounds(s: Seq<char>, i: int)
    requires
        0 <= i <= s.len(),
    ensures
        i <= newline_from(s, i) <= s.len(),
        newline_from(s, i) < s.len() ==> s[newline_from(s, i)] == '\n',
        forall|j: int| i <= j < newline_from(s, i) ==> s[j] != '\n',
    decreases s.len() - i,
{
    if i < s.len() && s[i] != '\n' {
        lemma_newline_from_bounds(s, i + 1);
    }
}

/// The number of lines never exceeds the number of code points.
pub proof fn lemma_lines_from_len(s: Seq<char>, start: int)
    requires
        0 <= start <= s.len(),
    ensures
        lines_from(s, start).len() <= s.len() - start,
        start < s.len() ==> lines_from(s, start).len() >= 1,
    decreases s.len() - start,
{
    if start < s.len() {
        let n = newline_from(s, start);
        lemma_newline_from_bounds(s, start);
        if n < s.len() {
            lemma_lines_from_len(s, n + 1);
        }
    }
}

/// A text has a line exactly when it is not empty.
pub proof fn lemma_lines_len(s: Seq<char>)
    ensures
        lines(s).len() <= s.len(),
        s.len() > 0 <==> lines(s).len() > 0,
{
    lemma_lines_from_len(s, 0);
}

/// The code points of `s`, in order.
pub fn chars_of(s: &str) -> (v: Vec<char>)
    ensures
        v@ == s@,
{
    let mut v: Vec<char> = Vec::new();
    for c in it: s.chars()
        invariant
            v@ == it.seq().take(it.index() as int),
            it.seq() == s@,
    {
        v.push(c);
    }
    v
}

/// `String::push` of std: appends one code point to the string.
#[verifier::external_body]
fn push_char(s: &mut String, c: char)
    ensures
        final(s)@ == old(s)@.push(c),
{
    s.push(c);
}

/// The string made of the code points `v[from..to]`.
pub fn string_of_range(v: &Vec<char>, from: usize, to: usize) -> (s: String)
    requires
        from <= to <= v.len(),
    ensures
        s@ == v@.subrange(from as int, to as int),
{
    let mut s = String::new();
    let mut i: usize = from;
    while i < to
        invariant
            from <= i <= to <= v.len(),
            s@ == v@.subrange(from as int, i as int),
        decreases to - i,
    {
        push_char(&mut s, v[i]);
        i += 1;
    }
    s
}

/// The string made of the code points of `v`.
pub fn string_of(v: &Vec<char>) -> (s: String)
    ensures
        s@ == v@,
{
    let s = string_of_range(v, 0, v.len());
    assert(v@.subrange(0, v@.len() as int) == v@);
    s
}

/// Whether `c` is white space.
pub fn is_whitespace_char(c: char) -> (b: bool)
    ensures
        b == is_white_space(c),
{
    let n: u32 = c as u32;
    (0x09 <= n && n <= 0x0D) || n == 0x20 || n == 0x85 || n == 0xA0 || n == 0x1680 || (0x2000 <= n
        && n <= 0x200A) || n == 0x2028 || n == 0x2029 || n == 0x202F || n == 0x205F || n == 0x3000
}

/// Whether two texts hold the same code points.
pub fn chars_eq(a: &Vec<char>, b: &Vec<char>) -> (r: bool)
    ensures
        r == (a@ == b@),
{
    if a.len() != b.len() {
        return false;
    }
    let mut i: usize = 0;
    while i < a.len()
        invariant
            i <= a.len(),
            a.len() == b.len(),
            a@.take(i as int) == b@.take(i as int),
        decreases a.len() - i,
    {
        if a[i] != b[i] {
            return false;
        }
        assert(a@.take(i + 1) == a@.take(i as int).push(a@[i as int]));
        assert(b@.take(i + 1) == b@.take(i as int).push(b@[i as int]));
        i += 1;
    }
    assert(a@.take(a@.len() as int) == a@);
    assert(b@.take(b@.len() as int) == b@);
    true
}

/// Whether a text given as a string equals one given as code points.
pub fn str_is(s: &str, expected: &str) -> (r: bool)
    ensures
        r == (s@ == expected@),
{
    let a = chars_of(s);
    let b = chars_of(expected);
    chars_eq(&a, &b)
}

/// Splits `text` into its lines.
pub fn split_lines(text: &Vec<char>) -> (out: Vec<Vec<char>>)
    ensures
        line_views(out@) == lines(text@),
{
    let mut out: Vec<Vec<char>> = Vec::new();
    let len = text.len();
    let mut start: usize = 0;
    assert(line_views(out@) =~= Seq::<Seq<char>>::empty());
    while start < len
        invariant
            len == text.len(),
            start <= len,
            lines(text@) == line_views(out@) + lines_from(text@, start as int),
        decreases len - start,
    {
        let mut n: usize = start;
        while n < len && text[n] != '\n'
            invariant
                len == text.len(),
                start <= n <= len,
                newline_from(text@, start as int) == newline_from(text@, n as int),
            decreases len - n,
        {
            n += 1;
        }
        let end: usize = if n < len && start < n && text[n - 1] == '\r' {
            n - 1
        } else {
            n
        };
        let mut line: Vec<char> = Vec::new();
        let mut i: usize = start;
        while i < end
            invariant
                start <= i <= end <= len,
                len == text.len(),
                line@ == text@.subrange(start as int, i as int),
            decreases end - i,
        {
            line.push(text[i]);
            i += 1;
        }
        let ghost before = out@;
        out.push(line);
        proof {
            assert(line_views(out@) =~= line_views(before).push(line@));
        }
        if n < len {
            start = n + 1;
        } else {
            start = len;
        }
    }
    proof {
        assert(lines_from(text@, len as int) =~= Seq::<Seq<char>>::empty());
    }
    out
}

/// Whether `needle` occurs in `hay`.
pub fn contains_chars(hay: &Vec<char>, needle: &Vec<char>) -> (r: bool)
    ensures
        r == contains(hay@, needle@),
{
    let hl = hay.len();
    let nl = needle.len();
    if nl > hl {
        return false;
    }
    let mut i: usize = 0;
    while i <= hl - nl
        invariant
            hl == hay.len(),
            nl == needle.len(),
            nl <= hl,
            i <= hl - nl + 1,
            forall|k: int| 0 <= k < i ==> !occurs_at(hay@, needle@, k),
        decreases hl - nl + 1 - i,
    {
        let mut j: usize = 0;
        while j < nl && hay[i + j] == needle[j]
            invariant
                hl == hay.len(),
                nl == needle.len(),
                i + nl <= hl,
                j <= nl,
                hay@.subrange(i as int, i + j) == needle@.take(j as int),
            decreases nl - j,
        {
            assert(hay@.subrange(i as int, i + j + 1) == hay@.subrange(i as int, i + j).push(
                hay@[i + j],
            ));
            assert(needle@.take(j + 1) == needle@.take(j as int).push(needle@[j as int]));
            j += 1;
        }
        if j == nl {
            assert(needle@.take(nl as int) == needle@);
            assert(occurs_at(hay@, needle@, i as int));
            return true;
        }
        proof {
            let w = hay@.subrange(i as int, i + nl);
            if w == needle@ {
                assert(w[j as int] == hay@[i + j]);
            }
        }
        i += 1;
    }
    false
}

proof fn lemma_leading_white_space(s: Seq<char>, a: int)
    requires
        0 <= a <= s.len(),
        forall|k: int| 0 <= k < a ==> is_white_space(#[trigger] s[k]),
        a < s.len() ==> !is_white_space(s[a]),
    ensures
        leading_white_space(s) == a,
    decreases a,
{
    if a > 0 {
        let t = s.skip(1);
        assert forall|k: int| 0 <= k < a - 1 implies is_white_space(#[trigger] t[k]) by {
            assert(t[k] == s[k + 1]);
        }
        lemma_leading_white_space(t, a - 1);
    }
}

proof fn lemma_trailing_white_space(s: Seq<char>, b: int)
    requires
        0 <= b <= s.len(),
        forall|k: int| b <= k < s.len() ==> is_white_space(#[trigger] s[k]),
        0 < b ==> !is_white_space(s[b - 1]),
    ensures
        trailing_white_space(s) == s.len() - b,
    decreases s.len() - b,
{
    if b < s.len() {
        let t = s.drop_last();
        assert forall|k: int| b <= k < t.len() implies is_white_space(#[trigger] t[k]) by {
            assert(t[k] == s[k]);
        }
        lemma_trailing_white_space(t, b);
    }
}

/// `s` without the white space at its front and back.
pub fn trimmed(s: &Vec<char>) -> (out: Vec<char>)
    ensures
        out@ == trim(s@),
{
    let len = s.len();
    let mut a: usize = 0;
    while a < len && is_whitespace_char(s[a])
        invariant
            len == s.len(),
            a <= len,
            forall|k: int| 0 <= k < a ==> is_white_space(#[trigger] s@[k]),
        decreases len - a,
    {
        a += 1;
    }
    proof {
        lemma_leading_white_space(s@, a as int);
    }
    let mut out: Vec<char> = Vec::new();
    if a == len {
        return out;
    }
    let mut b: usize = len;
    while b > a && is_whitespace_char(s[b - 1])
        invariant
            len == s.len(),
            a <= b <= len,
            a < len,
            !is_white_space(s@[a as int]),
            forall|k: int| b <= k < len ==> is_white_space(#[trigger] s@[k]),
        decreases b,
    {
        b -= 1;
    }
    proof {
        lemma_trailing_white_space(s@, b as int);
    }
    let mut i: usize = a;
    while i < b
        invariant
            a <= i <= b <= len,
            len == s.len(),
            out@ == s@.subrange(a as int, i as int),
        decreases b - i,
    {
        out.push(s[i]);
        i += 1;
    }
    out
}

} // verus!
