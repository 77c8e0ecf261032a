//! A document with the file that it belongs to.

use crate::rope::{
    line_count, line_text, rope_line, rope_remove, rope_string, rope_text, without,
};
use crate::support::min_int;
use crate::text::{append_chars, chars_of, string_of, trim_line_end, trimmed, trimmed_len};
use ropey::Rope;
use vstd::prelude::*;

verus! {

/// A document and the path of its file.
pub struct TextBuffer {
    text: Rope,
    path: Option<String>,
}

impl View for TextBuffer {
    type V = Seq<char>;

    closed spec fn view(&self) -> Seq<char> {
        rope_text(self.text)
    }
}

/// The lines `start .. end` of `text`, each without its line break and
/// followed by a carriage return and a line feed.
pub open spec fn lines_between(text: Seq<char>, start: int, end: int) -> Seq<char>
    decreases end - start,
{
    if end <= start {
        Seq::empty()
    } else {
        lines_between(text, start, end - 1) + trim_line_end(line_text(text, end - 1)) + seq![
            '\r',
            '\n',
        ]
    }
}

impl TextBuffer {
    /// The path of the document's file, if it has one.
    pub closed spec fn path(&self) -> Option<Seq<char>> {
        match self.path {
            Some(p) => Some(p@),
            None => None,
        }
    }

    /// The document `text` with the file `path`.
    pub fn new(text: Rope, path: Option<String>) -> (b: Self)
        ensures
            b@ == rope_text(text),
            b.path() == match path {
                Some(p) => Some(p@),
                None => None,
            },
    {
        Self { text, path }
    }

    /// Number of characters of line `idx`, its line break not counted.
    pub fn line_len(&self, idx: usize) -> (n: usize)
        requires
            idx < line_count(self@),
        ensures
            n == trim_line_end(line_text(self@, idx as int)).len(),
    {
        let line = rope_line(&self.text, idx);
        let chars = chars_of(line.as_str());
        trimmed_len(&chars)
    }

    /// Number of characters of line `idx`, its line break not counted, where
    /// the document has a line `idx`.
    pub fn checked_line_len(&self, idx: usize) -> (n: Option<usize>)
        ensures
            n == if idx < line_count(self@) {
                Some(trim_line_end(line_text(self@, idx as int)).len() as usize)
            } else {
                None
            },
    {
        if idx < self.text.len_lines() {
            Some(self.line_len(idx))
        } else {
            None
        }
    }

    /// Number of lines of the document, which is never 0.
    pub fn len_lines(&self) -> (n: usize)
        ensures
            n == line_count(self@),
            n >= 1,
    {
        self.text.len_lines()
    }

    /// The lines from `start` up to `end`, or up to the last line where the
    /// document has fewer: each without its line break and followed by a
    /// carriage return and a line feed.
    pub fn line_to_line(&self, start: usize, end: usize) -> (lines: String)
        ensures
            lines@ == lines_between(
                self@,
                start as int,
                min_int(end as int, line_count(self@) as int),
            ),
    {
        let e = self.text.len_lines();
        let end: usize = if end > e {
            e
        } else {
            end
        };
        let mut out: Vec<char> = Vec::new();
        let mut idx: usize = start;
        while idx < end
            invariant
                end <= line_count(self@),
                start <= idx,
                idx <= end || idx == start,
                out@ == lines_between(self@, start as int, idx as int),
            decreases end - idx,
        {
            let line = rope_line(&self.text, idx);
            let chars = chars_of(line.as_str());
            let piece = trimmed(&chars);
            append_chars(&mut out, &piece);
            out.push('\r');
            out.push('\n');
            idx += 1;
        }
        string_of(&out)
    }

    /// The whole document.
    pub fn _get_text(&self) -> (s: String)
        ensures
            s@ == self@,
    {
        rope_string(&self.text)
    }

    /// The path of the document's file, or `No Path` where it has none.
    pub fn _get_path(&self) -> (s: String)
        ensures
            s@ == match self.path() {
                Some(p) => p,
                None => "No Path"@,
            },
    {
        match &self.path {
            Some(p) => p.clone(),
            None => "No Path".to_owned(),
        }
    }

    /// Takes the characters `start .. end` out of the document.
    pub fn _remove(&mut self, start: usize, end: usize)
        requires
            start <= end <= old(self)@.len(),
        ensures
            final(self)@ == without(old(self)@, start as int, end as int),
            final(self).path() == old(self).path(),
    {
        rope_remove(&mut self.text, start, end);
    }
}

} // verus!
