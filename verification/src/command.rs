//! The commands of the command line.

use crate::text::chars_of;
use vstd::prelude::*;

verus! {

/// What a command line asks for.
#[derive(Clone, Copy, Debug, PartialEq, Eq, Structural)]
pub enum Command {
    /// `q`: stop the editor.
    Quit,
    /// `w`: write the document to its file.
    Write,
    /// `lenline`: print the last column of the cursor's line.
    LineLength,
    /// `height`: print the height of the text area.
    Height,
    /// `line`: print the cursor's line.
    Line,
    /// Anything else.
    Unknown,
}

/// The command that the text `line` names.
pub open spec fn command_of(line: Seq<char>) -> Command {
    if line == "q"@ {
        Command::Quit
    } else if line == "w"@ {
        Command::Write
    } else if line == "lenline"@ {
        Command::LineLength
    } else if line == "height"@ {
        Command::Height
    } else if line == "line"@ {
        Command::Line
    } else {
        Command::Unknown
    }
}

/// Whether `line` holds exactly the characters of `word`.
pub fn is_word(line: &Vec<char>, word: &str) -> (b: bool)
    ensures
        b == (line@ == word@),
{
    let w = chars_of(word);
    if w.len() != line.len() {
        return false;
    }
    let mut i: usize = 0;
    while i < w.len()
        invariant
            i <= w.len(),
            w.len() == line.len(),
            w@ == word@,
            forall|j: int| 0 <= j < i ==> w@[j] == line@[j],
        decreases w.len() - i,
    {
        if w[i] != line[i] {
            return false;
        }
        i += 1;
    }
    assert(line@ =~= w@);
    true
}

/// Reads a command line.
pub fn parse_command(line: &Vec<char>) -> (c: Command)
    ensures
        c == command_of(line@),
{
    if is_word(line, "q") {
        Command::Quit
    } else if is_word(line, "w") {
        Command::Write
    } else if is_word(line, "lenline") {
        Command::LineLength
    } else if is_word(line, "height") {
        Command::Height
    } else if is_word(line, "line") {
        Command::Line
    } else {
        Command::Unknown
    }
}

} // verus!
