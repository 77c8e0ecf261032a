//! The text storage. The document lives in a `ropey::Rope`; this module says
//! what the editor relies on when it asks the rope for lines and edits it.

use ropey::Rope;
use vstd::prelude::*;

verus! {

/// The rope of the `ropey` crate, which verified code carries and hands to
/// the functions below without looking inside.
#[verifier::external_type_specification]
#[verifier::external_body]
pub struct ExRope(Rope);

/// The characters that a rope holds, in order.
pub uninterp spec fn rope_text(r: Rope) -> Seq<char>;

/// The number of lines of `text`, as `Rope::len_lines` counts them.
pub uninterp spec fn line_count(text: Seq<char>) -> nat;

/// The index in `text` of the first character of line `line`, as
/// `Rope::line_to_char` gives it.
pub uninterp spec fn line_start(text: Seq<char>, line: int) -> int;

/// Line `line` of `text` with its line break: the characters from the start
/// of the line up to the start of the next.
pub open spec fn line_text(text: Seq<char>, line: int) -> Seq<char> {
    text.subrange(line_start(text, line), line_start(text, line + 1))
}

/// `text` without the characters `from .. to`.
pub open spec fn without(text: Seq<char>, from: int, to: int) -> Seq<char> {
    text.subrange(0, from) + text.subrange(to, text.len() as int)
}

/// `Rope::len_lines`: one more than the number of line breaks, so never 0.
pub assume_specification[ Rope::len_lines ](r: &Rope) -> (n: usize)
    ensures
        n == line_count(rope_text(*r)),
        n >= 1,
;

/// `Rope::line_to_char`: where line `line_idx` starts. The index one past
/// the last line is accepted and gives the number of characters; a larger one
/// panics.
pub assume_specification[ Rope::line_to_char ](r: &Rope, line_idx: usize) -> (p: usize)
    requires
        line_idx <= line_count(rope_text(*r)),
    ensures
        p == line_start(rope_text(*r), line_idx as int),
        p <= rope_text(*r).len(),
        line_idx == line_count(rope_text(*r)) ==> p == rope_text(*r).len(),
;

/// `Rope::insert_char`: puts `ch` before the character at `char_idx`, or at
/// the end where `char_idx` is the number of characters. A larger index
/// panics.
pub assume_specification[ Rope::insert_char ](r: &mut Rope, char_idx: usize, ch: char)
    requires
        char_idx <= rope_text(*old(r)).len(),
    ensures
        rope_text(*final(r)) == rope_text(*old(r)).insert(char_idx as int, ch),
;

/// `Rope::line`, as a string: the characters of line `line_idx`, line break
/// included, which lie between the start of that line and the start of the
/// next. The line ends within the rope, whose length is a `usize`. An index
/// that is no line panics.
#[verifier::external_body]
pub(crate) fn rope_line(r: &Rope, line_idx: usize) -> (s: String)
    requires
        line_idx < line_count(rope_text(*r)),
    ensures
        s@ == line_text(rope_text(*r), line_idx as int),
        line_start(rope_text(*r), line_idx as int) + s@.len() == line_start(
            rope_text(*r),
            line_idx + 1,
        ),
        line_start(rope_text(*r), line_idx as int) + s@.len() <= rope_text(*r).len(),
        line_start(rope_text(*r), line_idx as int) + s@.len() <= usize::MAX,
{
    String::from(r.line(line_idx))
}

/// `Rope::remove` on the range `start..end`: takes those characters out. A
/// range that starts after its end, or ends after the last character, panics.
#[verifier::external_body]
pub(crate) fn rope_remove(r: &mut Rope, start: usize, end: usize)
    requires
        start <= end <= rope_text(*old(r)).len(),
    ensures
        rope_text(*final(r)) == without(rope_text(*old(r)), start as int, end as int),
{
    r.remove(start..end)
}

/// The conversion of a rope into a `String`: all its characters.
#[verifier::external_body]
pub(crate) fn rope_string(r: &Rope) -> (s: String)
    ensures
        s@ == rope_text(*r),
{
    String::from(r)
}

} // verus!
