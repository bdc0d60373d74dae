//! Character-level text model: occurrences, splitting, lines and trimming.
//!
//! Requests and responses are modelled as sequences of characters. The
//! specification functions here say what the decoder looks for; the executable
//! helpers scan a slice of characters by index ranges and are proved against
//! them.

use vstd::prelude::*;

verus! {

/// `pat` occurs in `s` starting at index `i`.
pub open spec fn occurs_at(s: Seq<char>, pat: Seq<char>, i: int) -> bool {
    0 <= i && i + pat.len() <= s.len() && s.subrange(i, i + pat.len()) == pat
}

/// `s` begins with `pat`.
pub open spec fn starts_with(s: Seq<char>, pat: Seq<char>) -> bool {
    occurs_at(s, pat, 0)
}

/// The index of the first occurrence of `pat` in `s`, if there is one.
pub open spec fn find(s: Seq<char>, pat: Seq<char>) -> Option<int>
    decreases s.len(),
{
    if starts_with(s, pat) {
        Some(0)
    } else if s.len() == 0 {
        None
    } else {
        match find(s.drop_first(), pat) {
            Some(i) => Some(i + 1),
            None => None,
        }
    }
}

/// The pieces of `s` between the occurrences of the separator `sep`.
/// There is always at least one piece; pieces may be empty.
pub open spec fn split(s: Seq<char>, sep: char) -> Seq<Seq<char>>
    decreases s.len(),
{
    match find(s, seq![sep]) {
        Some(i) => if 0 <= i < s.len() {
            seq![s.take(i)] + split(s.skip(i + 1), sep)
        } else {
            seq![s]
        },
        None => seq![s],
    }
}

/// `line` without one trailing carriage return, if it has one.
pub open spec fn strip_cr(line: Seq<char>) -> Seq<char> {
    if line.len() > 0 && line.last() == '\r' {
        line.drop_last()
    } else {
        line
    }
}

/// The lines of `s`. A line ends at a line feed, or at a carriage return
/// directly followed by a line feed; the ending is not part of the line. A
/// last line needs no ending, and the empty text has no lines.
pub open spec fn lines(s: Seq<char>) -> Seq<Seq<char>>
    decreases s.len(),
{
    if s.len() == 0 {
        seq![]
    } else {
        match find(s, seq!['\n']) {
            Some(i) => if 0 <= i < s.len() {
                seq![strip_cr(s.take(i))] + lines(s.skip(i + 1))
            } else {
                seq![s]
            },
            None => seq![s],
        }
    }
}

/// Whether `c` is white space: a character with the Unicode property
/// `White_Space`.
pub open spec fn is_whitespace(c: char) -> bool {
    ||| '\u{9}' <= c <= '\u{d}'
    ||| c == ' '
    ||| c == '\u{85}'
    ||| c == '\u{a0}'
    ||| c == '\u{1680}'
    ||| '\u{2000}' <= c <= '\u{200a}'
    ||| c == '\u{2028}'
    ||| c == '\u{2029}'
    ||| c == '\u{202f}'
    ||| c == '\u{205f}'
    ||| c == '\u{3000}'
}

/// `s` without its leading white space.
pub open spec fn trim_start(s: Seq<char>) -> Seq<char>
    decreases s.len(),
{
    if s.len() > 0 && is_whitespace(s[0]) {
        trim_start(s.drop_first())
    } else {
        s
    }
}

/// `s` without its trailing white space.
pub open spec fn trim_end(s: Seq<char>) -> Seq<char>
    decreases s.len(),
{
    if s.len() > 0 && is_whitespace(s.last()) {
        trim_end(s.drop_last())
    } else {
        s
    }
}

/// `s` without its leading and trailing white space.
pub open spec fn trim(s: Seq<char>) -> Seq<char> {
    trim_end(trim_start(s))
}

/// An occurrence in the tail of `s` is an occurrence in `s`, one place later.
proof fn lemma_occurs_at_shift(s: Seq<char>, pat: Seq<char>, j: int)
    requires
        s.len() > 0,
        0 <= j,
    ensures
        occurs_at(s.drop_first(), pat, j) == occurs_at(s, pat, j + 1),
{
    if j + 1 + pat.len() <= s.len() {
        assert(s.drop_first().subrange(j, j + pat.len()) =~= s.subrange(j + 1, j + 1 + pat.len()));
    }
}

/// `find` returns the least index at which the pattern occurs.
pub proof fn lemma_find_first(s: Seq<char>, pat: Seq<char>, i: int)
    requires
        occurs_at(s, pat, i),
        forall|j: int| 0 <= j < i ==> !occurs_at(s, pat, j),
    ensures
        find(s, pat) == Some(i),
    decreases i,
{
    if i > 0 {
        lemma_occurs_at_shift(s, pat, i - 1);
        assert forall|j: int| 0 <= j < i - 1 implies !occurs_at(s.drop_first(), pat, j) by {
            lemma_occurs_at_shift(s, pat, j);
        }
        lemma_find_first(s.drop_first(), pat, i - 1);
    }
}

/// `find` returns nothing where the pattern does not occur.
pub proof fn lemma_find_absent(s: Seq<char>, pat: Seq<char>)
    requires
        forall|j: int| 0 <= j ==> !occurs_at(s, pat, j),
    ensures
        find(s, pat) is None,
    decreases s.len(),
{
    if s.len() > 0 {
        assert forall|j: int| 0 <= j implies !occurs_at(s.drop_first(), pat, j) by {
            lemma_occurs_at_shift(s, pat, j);
        }
        lemma_find_absent(s.drop_first(), pat);
    }
}

/// What `find` returns is an occurrence, and no occurrence comes before it.
pub proof fn lemma_find_is_first(s: Seq<char>, pat: Seq<char>)
    ensures
        match find(s, pat) {
            Some(i) => occurs_at(s, pat, i) && forall|j: int| 0 <= j < i ==> !occurs_at(s, pat, j),
            None => forall|j: int| 0 <= j ==> !occurs_at(s, pat, j),
        },
    decreases s.len(),
{
    if !starts_with(s, pat) && s.len() > 0 {
        lemma_find_is_first(s.drop_first(), pat);
        match find(s.drop_first(), pat) {
            Some(i) => {
                lemma_occurs_at_shift(s, pat, i);
                assert forall|j: int| 0 <= j < i + 1 implies !occurs_at(s, pat, j) by {
                    if j > 0 {
                        lemma_occurs_at_shift(s, pat, j - 1);
                    }
                }
            },
            None => {
                assert forall|j: int| 0 <= j implies !occurs_at(s, pat, j) by {
                    if j > 0 {
                        lemma_occurs_at_shift(s, pat, j - 1);
                    }
                }
            },
        }
    }
}

/// A text that is cut where a line ends has the lines of its first part,
/// and then those of its second part.
pub proof fn lemma_lines_concat(head: Seq<char>, rest: Seq<char>)
    requires
        head.len() > 0 ==> head.last() == '\n',
    ensures
        lines(head + rest) == lines(head) + lines(rest),
    decreases head.len(),
{
    let feed = seq!['\n'];
    let text = head + rest;
    if head.len() > 0 {
        assert(occurs_at(head, feed, head.len() - 1)) by {
            assert(head.subrange(head.len() - 1, head.len() as int) =~= feed);
        }
        lemma_find_is_first(head, feed);
        let i = find(head, feed)->0;
        assert(text.subrange(i, i + 1) =~= head.subrange(i, i + 1));
        assert forall|j: int| 0 <= j < i implies !occurs_at(text, feed, j) by {
            assert(!occurs_at(head, feed, j));
            assert(text.subrange(j, j + 1) =~= head.subrange(j, j + 1));
        }
        lemma_find_first(text, feed, i);
        assert(text.take(i) =~= head.take(i));
        assert(text.skip(i + 1) =~= head.skip(i + 1) + rest);
        lemma_lines_concat(head.skip(i + 1), rest);
    }
}

/// The characters of `s`, in order.
pub fn chars_of(s: &str) -> (v: Vec<char>)
    ensures
        v@ == s@,
{
    let mut v: Vec<char> = Vec::new();
    for c in it: s.chars()
        invariant
            v@ == it.seq().take(it.index() as int),
            it.seq() == s@,
    {
        v.push(c);
    }
    v
}

/// Tests a character for white space.
pub fn char_is_whitespace(c: char) -> (b: bool)
    ensures
        b == is_whitespace(c),
{
    ('\u{9}' <= c && c <= '\u{d}') || c == ' ' || c == '\u{85}' || c == '\u{a0}' || c == '\u{1680}'
        || ('\u{2000}' <= c && c <= '\u{200a}') || c == '\u{2028}' || c == '\u{2029}' || c
        == '\u{202f}' || c == '\u{205f}' || c == '\u{3000}'
}

/// Tests whether `pat` occurs in `chars` at index `at`.
pub fn matches_at(chars: &[char], at: usize, pat: &[char]) -> (b: bool)
    ensures
        b == occurs_at(chars@, pat@, at as int),
{
    let m = pat.len();
    if at > chars.len() || m > chars.len() - at {
        return false;
    }
    let mut k: usize = 0;
    while k < m
        invariant
            k <= m,
            m == pat@.len(),
            at + m <= chars.len(),
            forall|j: int| 0 <= j < k ==> chars@[at + j] == pat@[j],
        decreases m - k,
    {
        if chars[at + k] != pat[k] {
            return false;
        }
        k += 1;
    }
    assert(chars@.subrange(at as int, at + m) =~= pat@);
    true
}

/// Tests whether the part of `chars` from `from` up to `to` begins with `pat`.
pub fn range_starts_with(chars: &[char], from: usize, to: usize, pat: &[char]) -> (b: bool)
    requires
        from <= to <= chars@.len(),
    ensures
        b == starts_with(chars@.subrange(from as int, to as int), pat@),
{
    let m = pat.len();
    if m > to - from {
        return false;
    }
    let b = matches_at(chars, from, pat);
    proof {
        assert(chars@.subrange(from as int, to as int).subrange(0, m as int) =~= chars@.subrange(
            from as int,
            from + m,
        ));
    }
    b
}

/// Finds the first occurrence of `pat` in the part of `chars` from `from` up
/// to `to`. The index returned is an index into `chars`.
pub fn find_in(chars: &[char], from: usize, to: usize, pat: &[char]) -> (r: Option<usize>)
    requires
        from <= to <= chars@.len(),
    ensures
        match r {
            Some(i) => from <= i && i + pat@.len() <= to && find(
                chars@.subrange(from as int, to as int),
                pat@,
            ) == Some(i - from),
            None => find(chars@.subrange(from as int, to as int), pat@) is None,
        },
{
    let m = pat.len();
    let ghost part = chars@.subrange(from as int, to as int);
    if m > to - from {
        proof {
            lemma_find_absent(part, pat@);
        }
        return None;
    }
    if m == 0 {
        proof {
            assert(part.subrange(0, 0) =~= pat@);
        }
        return Some(from);
    }
    let last = to - m;
    let mut i = from;
    while i <= last
        invariant
            from <= i <= last + 1,
            last + m == to,
            0 < m == pat@.len(),
            from <= to <= chars.len(),
            part == chars@.subrange(from as int, to as int),
            forall|j: int| 0 <= j < i - from ==> !occurs_at(part, pat@, j),
        decreases last + 1 - i,
    {
        let hit = matches_at(chars, i, pat);
        proof {
            assert(part.subrange(i - from, i - from + m) =~= chars@.subrange(i as int, i + m));
        }
        if hit {
            proof {
                lemma_find_first(part, pat@, i - from);
            }
            return Some(i);
        }
        i += 1;
    }
    proof {
        lemma_find_absent(part, pat@);
    }
    None
}

/// Finds the part of `chars` from `from` up to `to` that is left when the
/// white space at both ends is taken away. Where nothing is left, the part
/// found is the empty one at `to`.
pub fn trim_range(chars: &[char], from: usize, to: usize) -> (r: (usize, usize))
    requires
        from <= to <= chars@.len(),
    ensures
        from <= r.0 <= r.1 <= to,
        chars@.subrange(r.0 as int, r.1 as int) == trim(chars@.subrange(from as int, to as int)),
        r.0 == r.1 ==> r.1 == to,
{
    let mut a = from;
    while a < to && char_is_whitespace(chars[a])
        invariant
            from <= a <= to <= chars@.len(),
            trim_start(chars@.subrange(a as int, to as int)) == trim_start(
                chars@.subrange(from as int, to as int),
            ),
        decreases to - a,
    {
        proof {
            assert(chars@.subrange(a as int, to as int).drop_first() =~= chars@.subrange(
                a + 1,
                to as int,
            ));
        }
        a += 1;
    }
    let mut b = to;
    while b > a && char_is_whitespace(chars[b - 1])
        invariant
            a <= b <= to <= chars@.len(),
            a < to ==> a < b && !is_whitespace(chars@[a as int]),
            trim_end(chars@.subrange(a as int, b as int)) == trim_end(
                chars@.subrange(a as int, to as int),
            ),
        decreases b - a,
    {
        proof {
            assert(chars@.subrange(a as int, b as int).drop_last() =~= chars@.subrange(
                a as int,
                b - 1,
            ));
        }
        b -= 1;
    }
    (a, b)
}

} // verus!
