//! Character sequences: conversion between strings and vectors of
//! characters, tab expansion, padding to a width, and line splitting.

use vstd::prelude::*;

verus! {

/// Columns that one tab character takes on screen.
pub const TAB_WIDTH: usize = 4;

/// `std::string::String::push`: the string afterwards is the string before
/// with `c` appended as its last character.
#[verifier::external_body]
pub(crate) fn push_char(s: &mut String, c: char)
    ensures
        final(s)@ == old(s)@.push(c),
{
    s.push(c)
}

/// The characters of `s`, in order.
pub fn chars_of(s: &str) -> (v: Vec<char>)
    ensures
        v@ == s@,
{
    let mut v: Vec<char> = Vec::new();
    for c in it: s.chars()
        invariant
            it.seq() == s@,
            v@ == it.seq().take(it.index()),
    {
        v.push(c);
    }
    v
}

/// The string made of the characters of `v`, in order.
pub fn string_of(v: &Vec<char>) -> (s: String)
    ensures
        s@ == v@,
{
    let mut s = String::new();
    let mut i: usize = 0;
    while i < v.len()
        invariant
            i <= v.len(),
            s@ == v@.take(i as int),
        decreases v.len() - i,
    {
        push_char(&mut s, v[i]);
        i += 1;
    }
    s
}

/// Whether `c` ends a line of a document: line feed, carriage return,
/// vertical tab, form feed, next line, line separator, paragraph separator.
pub open spec fn is_line_ending(c: char) -> bool {
    c == '\n' || c == '\r' || c == '\u{0B}' || c == '\u{0C}' || c == '\u{85}' || c == '\u{2028}'
        || c == '\u{2029}'
}

/// `s` without the line-ending characters that it ends with.
pub open spec fn trim_line_end(s: Seq<char>) -> Seq<char>
    decreases s.len(),
{
    if s.len() > 0 && is_line_ending(s.last()) {
        trim_line_end(s.drop_last())
    } else {
        s
    }
}

/// Columns that `c` takes on screen.
pub open spec fn char_width(c: char) -> nat {
    if c == '\t' {
        TAB_WIDTH as nat
    } else {
        1
    }
}

/// `s` with each tab replaced by `TAB_WIDTH` spaces.
pub open spec fn expand_tabs(s: Seq<char>) -> Seq<char>
    decreases s.len(),
{
    if s.len() == 0 {
        Seq::empty()
    } else if s.last() == '\t' {
        expand_tabs(s.drop_last()) + Seq::new(TAB_WIDTH as nat, |i: int| ' ')
    } else {
        expand_tabs(s.drop_last()).push(s.last())
    }
}

/// Columns that `s` takes on screen: one per character, `TAB_WIDTH` per tab.
pub open spec fn display_len(s: Seq<char>) -> nat {
    expand_tabs(s).len()
}

/// `s` cut or filled with spaces on the right to exactly `w` characters.
pub open spec fn fit(s: Seq<char>, w: nat) -> Seq<char> {
    Seq::new(
        w,
        |i: int|
            if i < s.len() {
                s[i]
            } else {
                ' '
            },
    )
}

/// The screen row that shows `line` at width `w`: tabs expanded, then cut or
/// filled to `w` columns.
pub open spec fn row_of(line: Seq<char>, w: nat) -> Seq<char> {
    fit(expand_tabs(line), w)
}

/// Number of occurrences of `c` in `s`.
pub open spec fn count_of(s: Seq<char>, c: char) -> nat
    decreases s.len(),
{
    if s.len() == 0 {
        0
    } else if s.last() == c {
        count_of(s.drop_last(), c) + 1
    } else {
        count_of(s.drop_last(), c)
    }
}

/// Index of the first line feed in `s`, or `s.len()` where it has none.
pub open spec fn first_newline(s: Seq<char>) -> int
    decreases s.len(),
{
    if s.len() == 0 || s[0] == '\n' {
        0
    } else {
        1 + first_newline(s.drop_first())
    }
}

/// `s` without one carriage return at its end.
pub open spec fn strip_cr(s: Seq<char>) -> Seq<char> {
    if s.len() > 0 && s.last() == '\r' {
        s.drop_last()
    } else {
        s
    }
}

/// The lines of `s`. A line ends at a line feed, or at the end of `s`; the
/// line feed and a carriage return directly before it are not part of the
/// line. Text that ends with a line feed has no empty line after it.
pub open spec fn split_lines(s: Seq<char>) -> Seq<Seq<char>>
    decreases s.len(),
{
    if s.len() == 0 {
        Seq::empty()
    } else {
        let k = first_newline(s);
        if k < 0 || k >= s.len() {
            seq![s]
        } else {
            seq![strip_cr(s.take(k))] + split_lines(s.skip(k + 1))
        }
    }
}

/// The first line feed is where a scan from the left finds it.
pub proof fn lemma_first_newline_is(s: Seq<char>, k: int)
    requires
        0 <= k <= s.len(),
        forall|i: int| 0 <= i < k ==> s[i] != '\n',
        k < s.len() ==> s[k] == '\n',
    ensures
        first_newline(s) == k,
    decreases k,
{
    if k == 0 {
    } else {
        let t = s.drop_first();
        assert forall|i: int| 0 <= i < k - 1 implies t[i] != '\n' by {
            assert(t[i] == s[i + 1]);
        }
        lemma_first_newline_is(t, k - 1);
    }
}

/// Tab expansion of a sequence extended by one character.
pub proof fn lemma_expand_tabs_push(s: Seq<char>, c: char)
    ensures
        expand_tabs(s.push(c)) == if c == '\t' {
            expand_tabs(s) + Seq::new(TAB_WIDTH as nat, |i: int| ' ')
        } else {
            expand_tabs(s).push(c)
        },
        display_len(s.push(c)) == display_len(s) + char_width(c),
{
    assert(s.push(c).drop_last() == s);
}

/// What `trim_line_end` leaves is a prefix that does not end a line.
pub proof fn lemma_trim_line_end(s: Seq<char>)
    ensures
        trim_line_end(s).len() <= s.len(),
        trim_line_end(s) == s.take(trim_line_end(s).len() as int),
        trim_line_end(s).len() > 0 ==> !is_line_ending(trim_line_end(s).last()),
        forall|i: int| trim_line_end(s).len() <= i < s.len() ==> is_line_ending(s[i]),
    decreases s.len(),
{
    if s.len() > 0 && is_line_ending(s.last()) {
        let t = s.drop_last();
        lemma_trim_line_end(t);
        let n = trim_line_end(t).len() as int;
        assert(t.take(n) == s.take(n));
        assert forall|i: int| n <= i < s.len() implies is_line_ending(s[i]) by {
            if i < t.len() {
                assert(s[i] == t[i]);
            }
        }
    } else {
        assert(s.take(s.len() as int) == s);
    }
}

/// Whether `c` ends a line of a document.
pub fn ends_line(c: char) -> (b: bool)
    ensures
        b == is_line_ending(c),
{
    c == '\n' || c == '\r' || c == '\u{0B}' || c == '\u{0C}' || c == '\u{85}' || c == '\u{2028}'
        || c == '\u{2029}'
}

/// Length of `line` without the line-ending characters that it ends with.
pub fn trimmed_len(line: &Vec<char>) -> (n: usize)
    ensures
        n <= line.len(),
        line@.take(n as int) == trim_line_end(line@),
{
    let mut n: usize = line.len();
    assert(line@.take(n as int) == line@);
    while n > 0 && ends_line(line[n - 1])
        invariant
            n <= line.len(),
            trim_line_end(line@) == trim_line_end(line@.take(n as int)),
        decreases n,
    {
        assert(line@.take(n as int).drop_last() == line@.take(n - 1));
        n -= 1;
    }
    n
}

/// `line` without the line-ending characters that it ends with.
pub fn trimmed(line: &Vec<char>) -> (t: Vec<char>)
    ensures
        t@ == trim_line_end(line@),
{
    let n = trimmed_len(line);
    let mut t: Vec<char> = Vec::new();
    let mut i: usize = 0;
    while i < n
        invariant
            i <= n <= line.len(),
            t@ == line@.take(i as int),
        decreases n - i,
    {
        t.push(line[i]);
        i += 1;
    }
    t
}

/// Columns that `line` takes on screen, as far as a `usize` can count them.
pub fn display_width(line: &Vec<char>) -> (n: usize)
    ensures
        n == if display_len(line@) <= usize::MAX {
            display_len(line@) as int
        } else {
            usize::MAX as int
        },
{
    let mut n: usize = 0;
    let mut i: usize = 0;
    assert(line@.take(0) == Seq::<char>::empty());
    while i < line.len()
        invariant
            i <= line.len(),
            n == if display_len(line@.take(i as int)) <= usize::MAX {
                display_len(line@.take(i as int)) as int
            } else {
                usize::MAX as int
            },
        decreases line.len() - i,
    {
        let step: usize = if line[i] == '\t' {
            TAB_WIDTH
        } else {
            1
        };
        proof {
            assert(line@.take(i + 1) == line@.take(i as int).push(line@[i as int]));
            lemma_expand_tabs_push(line@.take(i as int), line@[i as int]);
        }
        n = if n > usize::MAX - step {
            usize::MAX
        } else {
            n + step
        };
        i += 1;
    }
    assert(line@.take(i as int) == line@);
    n
}

/// `line` with each tab replaced by `TAB_WIDTH` spaces.
pub fn expanded(line: &Vec<char>) -> (v: Vec<char>)
    ensures
        v@ == expand_tabs(line@),
{
    let mut v: Vec<char> = Vec::new();
    let mut i: usize = 0;
    assert(line@.take(0) == Seq::<char>::empty());
    while i < line.len()
        invariant
            i <= line.len(),
            v@ == expand_tabs(line@.take(i as int)),
        decreases line.len() - i,
    {
        proof {
            assert(line@.take(i + 1) == line@.take(i as int).push(line@[i as int]));
            lemma_expand_tabs_push(line@.take(i as int), line@[i as int]);
        }
        if line[i] == '\t' {
            let ghost before = v@;
            v.push(' ');
            v.push(' ');
            v.push(' ');
            v.push(' ');
            assert(v@ == before + Seq::new(TAB_WIDTH as nat, |i: int| ' '));
        } else {
            v.push(line[i]);
        }
        i += 1;
    }
    assert(line@.take(i as int) == line@);
    v
}

/// `text` cut or filled with spaces on the right to exactly `w` characters.
pub fn fitted(text: &Vec<char>, w: usize) -> (v: Vec<char>)
    ensures
        v@ == fit(text@, w as nat),
{
    let mut v: Vec<char> = Vec::new();
    let mut i: usize = 0;
    while i < w
        invariant
            i <= w,
            v@ == fit(text@, i as nat),
        decreases w - i,
    {
        if i < text.len() {
            v.push(text[i]);
        } else {
            v.push(' ');
        }
        i += 1;
    }
    v
}

/// The screen row that shows `line` at width `w`.
pub fn padded_row(line: &Vec<char>, w: usize) -> (v: Vec<char>)
    ensures
        v@ == row_of(line@, w as nat),
        v.len() == w,
{
    let e = expanded(line);
    fitted(&e, w)
}

/// The lines of `text`.
pub fn lines_of(text: &Vec<char>) -> (lines: Vec<Vec<char>>)
    ensures
        lines.len() == split_lines(text@).len(),
        forall|i: int| 0 <= i < lines.len() ==> (#[trigger] lines[i])@ == split_lines(text@)[i],
{
    let mut lines: Vec<Vec<char>> = Vec::new();
    let ghost mut done: Seq<Seq<char>> = Seq::empty();
    let mut pos: usize = 0;
    assert(text@.skip(0) == text@);
    while pos < text.len()
        invariant
            pos <= text.len(),
            lines.len() == done.len(),
            forall|i: int| 0 <= i < lines.len() ==> (#[trigger] lines[i])@ == done[i],
            split_lines(text@) == done + split_lines(text@.skip(pos as int)),
        decreases text.len() - pos,
    {
        let ghost rest = text@.skip(pos as int);
        let mut line: Vec<char> = Vec::new();
        let mut j: usize = pos;
        while j < text.len() && text[j] != '\n'
            invariant
                pos <= j <= text.len(),
                line@ == text@.subrange(pos as int, j as int),
                forall|i: int| pos <= i < j ==> text@[i] != '\n',
            decreases text.len() - j,
        {
            line.push(text[j]);
            j += 1;
        }
        proof {
            assert forall|i: int| 0 <= i < j - pos implies rest[i] != '\n' by {
                assert(rest[i] == text@[pos + i]);
            }
            lemma_first_newline_is(rest, j - pos);
            assert(line@ == rest.take(j - pos));
        }
        if j < text.len() {
            let n = line.len();
            if n > 0 && line[n - 1] == '\r' {
                line.pop();
            }
            proof {
                assert(line@ == strip_cr(rest.take(j - pos)));
                assert(rest.skip(j - pos + 1) == text@.skip(j + 1));
                assert(done + (seq![line@] + split_lines(text@.skip(j + 1))) == done.push(line@)
                    + split_lines(text@.skip(j + 1)));
                done = done.push(line@);
            }
            lines.push(line);
            pos = j + 1;
        } else {
            proof {
                assert(rest.take(j - pos) == rest);
                assert(text@.skip(j as int) == Seq::<char>::empty());
                assert(done + seq![line@] == done.push(line@) + split_lines(text@.skip(j as int)));
                done = done.push(line@);
            }
            lines.push(line);
            pos = j;
        }
    }
    assert(done + split_lines(text@.skip(pos as int)) == done);
    lines
}

/// Number of occurrences of `c` in `text`.
pub fn count_in(text: &Vec<char>, c: char) -> (n: usize)
    ensures
        n == count_of(text@, c),
{
    let mut n: usize = 0;
    let mut i: usize = 0;
    assert(text@.take(0) == Seq::<char>::empty());
    while i < text.len()
        invariant
            i <= text.len(),
            n == count_of(text@.take(i as int), c),
            n <= i,
        decreases text.len() - i,
    {
        assert(text@.take(i + 1).drop_last() == text@.take(i as int));
        if text[i] == c {
            n += 1;
        }
        i += 1;
    }
    assert(text@.take(i as int) == text@);
    n
}

/// The character that writes the digit `d`.
pub open spec fn digit_char(d: int) -> char {
    if d == 0 {
        '0'
    } else if d == 1 {
        '1'
    } else if d == 2 {
        '2'
    } else if d == 3 {
        '3'
    } else if d == 4 {
        '4'
    } else if d == 5 {
        '5'
    } else if d == 6 {
        '6'
    } else if d == 7 {
        '7'
    } else if d == 8 {
        '8'
    } else {
        '9'
    }
}

/// `n` written in decimal digits, without leading zeros.
pub open spec fn decimal(n: nat) -> Seq<char>
    decreases n,
{
    if n < 10 {
        seq![digit_char(n as int)]
    } else {
        decimal(n / 10).push(digit_char((n % 10) as int))
    }
}

/// The character that writes the digit `d`.
pub fn digit_of(d: usize) -> (c: char)
    requires
        d < 10,
    ensures
        c == digit_char(d as int),
{
    if d == 0 {
        '0'
    } else if d == 1 {
        '1'
    } else if d == 2 {
        '2'
    } else if d == 3 {
        '3'
    } else if d == 4 {
        '4'
    } else if d == 5 {
        '5'
    } else if d == 6 {
        '6'
    } else if d == 7 {
        '7'
    } else if d == 8 {
        '8'
    } else {
        '9'
    }
}

/// `n` written in decimal digits.
pub fn decimal_of(n: usize) -> (v: Vec<char>)
    ensures
        v@ == decimal(n as nat),
    decreases n,
{
    if n < 10 {
        let mut v: Vec<char> = Vec::new();
        v.push(digit_of(n));
        v
    } else {
        let mut v = decimal_of(n / 10);
        v.push(digit_of(n % 10));
        v
    }
}

/// Appends the characters of `tail` to `v`.
pub fn append_chars(v: &mut Vec<char>, tail: &Vec<char>)
    ensures
        final(v)@ == old(v)@ + tail@,
{
    let mut i: usize = 0;
    while i < tail.len()
        invariant
            i <= tail.len(),
            v@ == old(v)@ + tail@.take(i as int),
        decreases tail.len() - i,
    {
        v.push(tail[i]);
        i += 1;
    }
    assert(tail@.take(i as int) == tail@);
}

/// Number of leading characters of `s` that fit into `col` columns.
pub open spec fn chars_within(s: Seq<char>, col: int) -> nat
    decreases s.len(),
{
    if s.len() == 0 || char_width(s[0]) > col {
        0
    } else {
        1 + chars_within(s.drop_first(), col - char_width(s[0]))
    }
}

/// The number of leading characters of `line` that fit into `col` columns,
/// and the columns that they take.
pub fn leading_chars(line: &Vec<char>, col: usize) -> (r: (usize, usize))
    ensures
        r.0 == chars_within(line@, col as int),
        r.0 <= line.len(),
        r.1 == display_len(line@.take(r.0 as int)),
        r.1 <= col,
{
    let mut k: usize = 0;
    let mut used: usize = 0;
    assert(line@.skip(0) == line@);
    assert(line@.take(0) == Seq::<char>::empty());
    loop
        invariant_except_break
            k <= line.len(),
            used <= col,
            used == display_len(line@.take(k as int)),
            chars_within(line@, col as int) == k + chars_within(line@.skip(k as int), col - used),
        ensures
            k <= line.len(),
            used <= col,
            used == display_len(line@.take(k as int)),
            k == chars_within(line@, col as int),
        decreases line.len() - k,
    {
        if k >= line.len() {
            break ;
        }
        let step: usize = if line[k] == '\t' {
            TAB_WIDTH
        } else {
            1
        };
        assert(line@.skip(k as int)[0] == line@[k as int]);
        if step > col - used {
            break ;
        }
        proof {
            assert(line@.skip(k as int).drop_first() == line@.skip(k + 1));
            assert(line@.take(k + 1) == line@.take(k as int).push(line@[k as int]));
            lemma_expand_tabs_push(line@.take(k as int), line@[k as int]);
        }
        used = used + step;
        k = k + 1;
    }
    (k, used)
}

} // verus!
