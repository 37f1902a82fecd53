// SPDX-License-Identifier: GPL-3.0

//! Text utilities over character sequences.
//!
//! Strings are modelled by their characters (`Seq<char>`). The functions
//! here turn a string into a vector of characters once, work on that by
//! index, and build the result with `String::push`.

use vstd::prelude::*;
use vstd::utf8::{decode_utf8, valid_utf8};

verus! {

/// `String::push` appends one character.
pub assume_specification[ String::push ](s: &mut String, ch: char)
    ensures
        final(s)@ == old(s)@.push(ch),
;

/// The text that `String::from_utf8_lossy` makes of `bytes`: their decoding
/// as UTF-8, with U+FFFD in place of each part that is no valid encoding.
pub uninterp spec fn lossy_text(bytes: Seq<u8>) -> Seq<char>;

/// `String::from_utf8_lossy` decodes bytes as UTF-8 and never fails. Bytes
/// that are valid UTF-8 come out as the text they encode; what it puts in
/// place of invalid parts is not spelled out here but named.
#[verifier::external_body]
pub(crate) fn decode_lossy(bytes: &[u8]) -> (text: String)
    ensures
        text@ == lossy_text(bytes@),
        valid_utf8(bytes@) ==> text@ == decode_utf8(bytes@),
{
    String::from_utf8_lossy(bytes).into_owned()
}

/// `String::from_utf8` decodes bytes as UTF-8: it gives the text that they
/// encode where they are valid UTF-8, and fails on all other bytes.
#[verifier::external_body]
pub(crate) fn decode_strict(bytes: Vec<u8>) -> (text: Option<String>)
    ensures
        text is Some <==> valid_utf8(bytes@),
        text matches Some(t) ==> t@ == decode_utf8(bytes@),
{
    String::from_utf8(bytes).ok()
}

/// The characters of `s`, in order.
pub fn chars_of(s: &str) -> (v: Vec<char>)
    ensures
        v@ == s@,
{
    let mut v: Vec<char> = Vec::new();
    for c in it: s.chars()
        invariant
            it.seq() == s@,
            v@ == it.seq().take(it.index()),
    {
        v.push(c);
    }
    v
}

/// The string made of the characters `chars[from..to]`.
pub fn string_of_range(chars: &Vec<char>, from: usize, to: usize) -> (s: String)
    requires
        from <= to <= chars@.len(),
    ensures
        s@ == chars@.subrange(from as int, to as int),
{
    let mut s = String::new();
    let mut i: usize = from;
    while i < to
        invariant
            from <= i <= to <= chars@.len(),
            s@ == chars@.subrange(from as int, i as int),
        decreases to - i,
    {
        s.push(chars[i]);
        i += 1;
    }
    s
}

/// The string made of `chars`, in order.
pub fn string_of(chars: &Vec<char>) -> (s: String)
    ensures
        s@ == chars@,
{
    string_of_range(chars, 0, chars.len())
}

/// `first` followed by `second`.
pub fn followed_by(first: &str, second: &str) -> (s: String)
    ensures
        s@ == first@ + second@,
{
    let mut s = first.to_owned();
    s.append(second);
    s
}

// ---------------------------------------------------------------------
// Lines
// ---------------------------------------------------------------------

/// Index of the first line feed of `s`, or `s.len()` where it has none.
pub open spec fn first_line_feed(s: Seq<char>) -> int
    decreases s.len(),
{
    if s.len() == 0 || s[0] == '\n' {
        0
    } else {
        1 + first_line_feed(s.drop_first())
    }
}

/// `line` without one trailing carriage return.
pub open spec fn without_cr(line: Seq<char>) -> Seq<char> {
    if line.len() > 0 && line.last() == '\r' {
        line.drop_last()
    } else {
        line
    }
}

/// The lines of `s`. A line ends at a line feed; a carriage return right
/// before that line feed belongs to the line ending too. The last line
/// needs no line ending, and an empty rest after the last line ending is
/// no line.
pub open spec fn lines_of(s: Seq<char>) -> Seq<Seq<char>>
    decreases s.len(),
{
    let end = first_line_feed(s);
    if s.len() == 0 {
        Seq::empty()
    } else if 0 <= end < s.len() {
        seq![without_cr(s.take(end))] + lines_of(s.skip(end + 1))
    } else {
        seq![s]
    }
}

/// `first_line_feed(s)` is the index `i` before which `s` has no line feed
/// and at which it has one or ends.
pub proof fn lemma_first_line_feed(s: Seq<char>, i: int)
    requires
        0 <= i <= s.len(),
        forall|j: int| 0 <= j < i ==> s[j] != '\n',
        i < s.len() ==> s[i] == '\n',
    ensures
        first_line_feed(s) == i,
    decreases i,
{
    if i > 0 {
        lemma_first_line_feed(s.drop_first(), i - 1);
    }
}

/// Split `text` into its lines.
pub fn lines(text: &str) -> (out: Vec<String>)
    ensures
        out.deep_view() == lines_of(text@),
{
    let cs = chars_of(text);
    let n = cs.len();
    let mut out: Vec<String> = Vec::new();
    let mut start: usize = 0;
    let mut i: usize = 0;
    assert(cs@.skip(0) =~= cs@);
    while i < n
        invariant
            n == cs@.len(),
            start <= i <= n,
            forall|j: int| start <= j < i ==> cs@[j] != '\n',
            lines_of(cs@) == out.deep_view() + lines_of(cs@.skip(start as int)),
        decreases n - i,
    {
        if cs[i] == '\n' {
            let end = if start < i && cs[i - 1] == '\r' {
                i - 1
            } else {
                i
            };
            let line = string_of_range(&cs, start, end);
            proof {
                let rest = cs@.skip(start as int);
                lemma_first_line_feed(rest, i - start);
                assert(rest.skip(i - start + 1) =~= cs@.skip(i + 1));
                assert(line@ =~= without_cr(rest.take(i - start)));
            }
            out.push(line);
            start = i + 1;
        }
        i += 1;
    }
    if start < n {
        let line = string_of_range(&cs, start, n);
        proof {
            let rest = cs@.skip(start as int);
            lemma_first_line_feed(rest, n - start);
        }
        out.push(line);
    }
    out
}

/// The lines of `lines` that hold at least one character, in order.
pub open spec fn non_empty(lines: Seq<Seq<char>>) -> Seq<Seq<char>> {
    lines.filter(|line: Seq<char>| line.len() > 0)
}

/// Split `text` into its lines and drop the empty ones.
pub fn non_empty_lines(text: &str) -> (out: Vec<String>)
    ensures
        out.deep_view() == non_empty(lines_of(text@)),
{
    let all = lines(text);
    let ghost all_view = all.deep_view();
    let ghost keep = |line: Seq<char>| line.len() > 0;
    let mut out: Vec<String> = Vec::new();
    proof {
        reveal(Seq::filter);
    }
    for line in it: all
        invariant
            it.seq().len() == all_view.len(),
            forall|j: int| 0 <= j < all_view.len() ==> (#[trigger] it.seq()[j])@ == all_view[j],
            keep == |line: Seq<char>| line.len() > 0,
            out.deep_view() == all_view.take(it.index()).filter(keep),
    {
        proof {
            reveal(Seq::filter);
            assert(all_view.take(it.index() + 1).drop_last() =~= all_view.take(it.index()));
        }
        if !line.as_str().is_empty() {
            out.push(line);
        }
    }
    assert(all_view.take(all_view.len() as int) =~= all_view);
    out
}

// ---------------------------------------------------------------------
// Trimming
// ---------------------------------------------------------------------

/// Whether `c` is white space: whether it has the Unicode property
/// `White_Space`. These are the 25 characters U+0009 to U+000D, U+0020,
/// U+0085, U+00A0, U+1680, U+2000 to U+200A, U+2028, U+2029, U+202F,
/// U+205F and U+3000.
pub open spec fn is_white_space(c: char) -> bool {
    ||| '\u{9}' <= c <= '\u{d}'
    ||| c == '\u{20}'
    ||| c == '\u{85}'
    ||| c == '\u{a0}'
    ||| c == '\u{1680}'
    ||| '\u{2000}' <= c <= '\u{200a}'
    ||| c == '\u{2028}'
    ||| c == '\u{2029}'
    ||| c == '\u{202f}'
    ||| c == '\u{205f}'
    ||| c == '\u{3000}'
}

/// `char::is_whitespace` tells whether a character has the Unicode property
/// `White_Space`. Its documentation names the property; the characters
/// that have it are listed in [`is_white_space`].
pub assume_specification[ char::is_whitespace ](c: char) -> (b: bool)
    ensures
        b == is_white_space(c),
;

/// `s` without its leading white space.
pub open spec fn trimmed_start(s: Seq<char>) -> Seq<char>
    decreases s.len(),
{
    if s.len() > 0 && is_white_space(s[0]) {
        trimmed_start(s.drop_first())
    } else {
        s
    }
}

/// `s` without its trailing white space.
pub open spec fn trimmed_end(s: Seq<char>) -> Seq<char>
    decreases s.len(),
{
    if s.len() > 0 && is_white_space(s.last()) {
        trimmed_end(s.drop_last())
    } else {
        s
    }
}

/// `s` without its leading and trailing white space.
pub open spec fn trimmed(s: Seq<char>) -> Seq<char> {
    trimmed_end(trimmed_start(s))
}

/// Remove leading and trailing white space.
pub fn trim(text: &str) -> (out: String)
    ensures
        out@ == trimmed(text@),
{
    let cs = chars_of(text);
    let n = cs.len();
    let mut from: usize = 0;
    assert(cs@.skip(0) =~= cs@);
    while from < n && cs[from].is_whitespace()
        invariant
            n == cs@.len(),
            from <= n,
            trimmed_start(cs@) == trimmed_start(cs@.skip(from as int)),
        decreases n - from,
    {
        assert(cs@.skip(from as int).drop_first() =~= cs@.skip(from + 1));
        from += 1;
    }
    let mut to: usize = n;
    while to > from && cs[to - 1].is_whitespace()
        invariant
            n == cs@.len(),
            from <= to <= n,
            trimmed(cs@) == trimmed_end(cs@.subrange(from as int, to as int)),
        decreases to,
    {
        assert(cs@.subrange(from as int, to as int).drop_last() =~= cs@.subrange(
            from as int,
            to - 1,
        ));
        to -= 1;
    }
    string_of_range(&cs, from, to)
}

// ---------------------------------------------------------------------
// Searching and replacing
// ---------------------------------------------------------------------

/// Whether `pattern` stands in `s` at index `at`.
pub open spec fn occurs_at(pattern: Seq<char>, s: Seq<char>, at: int) -> bool {
    0 <= at && at + pattern.len() <= s.len() && s.subrange(at, at + pattern.len()) == pattern
}

/// Whether `pattern` stands somewhere in `s`.
pub open spec fn occurs_in(pattern: Seq<char>, s: Seq<char>) -> bool {
    exists|at: int| occurs_at(pattern, s, at)
}

/// `s` with every occurrence of `from` replaced by `to`, found from left to
/// right without overlap. An empty `from` occurs nowhere.
pub open spec fn replaced(s: Seq<char>, from: Seq<char>, to: Seq<char>) -> Seq<char>
    decreases s.len(),
{
    if from.len() == 0 || s.len() < from.len() {
        s
    } else if occurs_at(from, s, 0) {
        to + replaced(s.skip(from.len() as int), from, to)
    } else {
        seq![s[0]] + replaced(s.skip(1), from, to)
    }
}

/// Whether `pattern` stands in `s` at index `at`.
pub fn matches_at(s: &Vec<char>, at: usize, pattern: &Vec<char>) -> (found: bool)
    ensures
        found == occurs_at(pattern@, s@, at as int),
{
    if at > s.len() || pattern.len() > s.len() - at {
        return false;
    }
    let n = s.len();
    let m = pattern.len();
    let mut k: usize = 0;
    while k < m
        invariant
            n == s@.len(),
            m == pattern@.len(),
            k <= m,
            at + m <= n,
            forall|j: int| 0 <= j < k ==> s@[at + j] == pattern@[j],
        decreases m - k,
    {
        if s[at + k] != pattern[k] {
            return false;
        }
        k += 1;
    }
    assert(s@.subrange(at as int, at + pattern@.len()) =~= pattern@);
    true
}

/// Whether `pattern` stands somewhere in `text`.
pub fn contains(text: &str, pattern: &str) -> (found: bool)
    ensures
        found == occurs_in(pattern@, text@),
{
    let s = chars_of(text);
    let p = chars_of(pattern);
    if p.len() > s.len() {
        return false;
    }
    let last: usize = s.len() - p.len();
    let mut at: usize = 0;
    while at < last
        invariant
            s@ == text@,
            p@ == pattern@,
            last == s@.len() - p@.len(),
            at <= last,
            forall|j: int| 0 <= j < at ==> !occurs_at(p@, s@, j),
        decreases last - at,
    {
        if matches_at(&s, at, &p) {
            return true;
        }
        at += 1;
    }
    matches_at(&s, last, &p)
}

/// Replace every occurrence of `from` in `text` by `to`.
pub fn replace(text: &str, from: &str, to: &str) -> (out: String)
    ensures
        out@ == replaced(text@, from@, to@),
{
    let s = chars_of(text);
    let f = chars_of(from);
    let mut out = String::new();
    if f.len() == 0 {
        return text.to_owned();
    }
    let mut i: usize = 0;
    assert(s@.skip(0) =~= s@);
    while i < s.len()
        invariant
            i <= s@.len(),
            f@.len() > 0,
            replaced(s@, f@, to@) == out@ + replaced(s@.skip(i as int), f@, to@),
        decreases s@.len() - i,
    {
        let ghost rest = s@.skip(i as int);
        if matches_at(&s, i, &f) {
            proof {
                assert(rest.subrange(0, f@.len() as int) =~= s@.subrange(i as int, i + f@.len()));
                assert(rest.skip(f@.len() as int) =~= s@.skip(i + f@.len()));
            }
            out.append(to);
            i += f.len();
        } else {
            proof {
                assert(rest.skip(1) =~= s@.skip(i + 1));
                if rest.len() >= f@.len() {
                    assert(rest.subrange(0, f@.len() as int) =~= s@.subrange(
                        i as int,
                        i + f@.len(),
                    ));
                }
            }
            out.push(s[i]);
            i += 1;
        }
    }
    out
}

// ---------------------------------------------------------------------
// Numbers and lists
// ---------------------------------------------------------------------

/// The character of the decimal digit `d`.
pub open spec fn digit_char(d: nat) -> char {
    if d == 0 {
        '0'
    } else if d == 1 {
        '1'
    } else if d == 2 {
        '2'
    } else if d == 3 {
        '3'
    } else if d == 4 {
        '4'
    } else if d == 5 {
        '5'
    } else if d == 6 {
        '6'
    } else if d == 7 {
        '7'
    } else if d == 8 {
        '8'
    } else {
        '9'
    }
}

/// `n` in decimal, without leading zeros.
pub open spec fn decimal_digits(n: nat) -> Seq<char>
    decreases n,
{
    if n < 10 {
        seq![digit_char(n)]
    } else {
        decimal_digits(n / 10).push(digit_char(n % 10))
    }
}

/// The character of the decimal digit `d`.
pub fn digit(d: u64) -> (c: char)
    requires
        d < 10,
    ensures
        c == digit_char(d as nat),
{
    if d == 0 {
        '0'
    } else if d == 1 {
        '1'
    } else if d == 2 {
        '2'
    } else if d == 3 {
        '3'
    } else if d == 4 {
        '4'
    } else if d == 5 {
        '5'
    } else if d == 6 {
        '6'
    } else if d == 7 {
        '7'
    } else if d == 8 {
        '8'
    } else {
        '9'
    }
}

/// Write `n` in decimal.
pub fn decimal(n: u64) -> (out: String)
    ensures
        out@ == decimal_digits(n as nat),
    decreases n,
{
    if n < 10 {
        let mut out = String::new();
        out.push(digit(n));
        out
    } else {
        let mut out = decimal(n / 10);
        out.push(digit(n % 10));
        out
    }
}

/// The parts of `parts` in order, with `separator` between neighbours.
pub open spec fn joined(parts: Seq<Seq<char>>, separator: Seq<char>) -> Seq<char>
    decreases parts.len(),
{
    if parts.len() == 0 {
        Seq::empty()
    } else if parts.len() == 1 {
        parts[0]
    } else {
        joined(parts.drop_last(), separator) + separator + parts.last()
    }
}

/// Join `parts` with `separator` between neighbours.
pub fn join(parts: &Vec<String>, separator: &str) -> (out: String)
    ensures
        out@ == joined(parts.deep_view(), separator@),
{
    let ghost all = parts.deep_view();
    let mut out = String::new();
    let mut i: usize = 0;
    while i < parts.len()
        invariant
            i <= parts@.len(),
            all == parts.deep_view(),
            out@ == joined(all.take(i as int), separator@),
        decreases parts@.len() - i,
    {
        assert(all.take(i + 1).drop_last() =~= all.take(i as int));
        if i > 0 {
            out.append(separator);
        }
        out.append(parts[i].as_str());
        i += 1;
    }
    assert(all.take(parts@.len() as int) =~= all);
    out
}

} // verus!
