//! The editor state and the operations that actions are made of: cursor
//! motion, scrolling, mode changes and edits of the document.

use crate::event::{vertical_steps, Direction};
use crate::motion::{
    end_of_line, eol, last_row, lemma_mode_change_settled, lemma_move_horizontal_anchors,
    lemma_move_vertical_settled, lemma_scroll_settled, lemma_settle_settled, move_horizontal,
    move_vertical, on_mode_change, scroll, settle, settled, top_limit, Place,
};
use crate::render::ScreenVector;
use crate::rope::{line_count, line_start, line_text, rope_line, rope_text};
use crate::screen::{blank, blank_cells};
use crate::support::{clamp_int, min_int};
use crate::text::{
    chars_of, display_len, display_width, lemma_trim_line_end, trim_line_end, trimmed,
};
use ropey::Rope;
use vstd::prelude::*;

verus! {

/// The editing mode, which selects the key table and the end-of-line rule.
#[derive(Clone, Copy, Debug, PartialEq, Eq, Structural)]
pub enum Mode {
    Insert,
    Normal,
    Command,
}

/// The cursor: where it stands on screen and in the document.
#[derive(Clone, Copy, Debug, PartialEq, Eq, Structural)]
pub struct Cursor {
    /// Column on screen.
    pub x: usize,
    /// Row on screen, counted from the first text row.
    pub y: usize,
    /// Column in the document.
    pub gx: usize,
    /// Line in the document.
    pub gy: usize,
    /// Sticky column: the column that the last horizontal move chose.
    pub max_x: usize,
}

impl Default for Cursor {
    fn default() -> (c: Self)
        ensures
            c.x == 0,
            c.y == 0,
            c.gx == 0,
            c.gy == 0,
            c.max_x == 0,
    {
        Self { x: 0, y: 0, gx: 0, gy: 0, max_x: 0 }
    }
}

/// What the last command left to report.
#[derive(Debug, PartialEq, Eq)]
pub enum EditorError {
    /// The command line held no command that the editor knows.
    InvalidCommand(String),
    NONE,
}

impl EditorError {
    /// The command that was refused, if any.
    pub open spec fn refused(&self) -> Option<Seq<char>> {
        match self {
            EditorError::InvalidCommand(c) => Some(c@),
            EditorError::NONE => None,
        }
    }
}

/// Columns of line `y` of `text`: its characters without the line break,
/// a tab counted as `TAB_WIDTH` columns, as far as a `usize` can count.
pub open spec fn line_len(text: Seq<char>, y: int) -> nat {
    let d = display_len(trim_line_end(line_text(text, y)));
    if d <= usize::MAX {
        d
    } else {
        usize::MAX as nat
    }
}

/// The columns of each line of `text`.
pub open spec fn line_lens(text: Seq<char>) -> Seq<nat> {
    Seq::new(line_count(text), |y: int| line_len(text, y))
}

/// The editor: the document, the viewport, the cursor, the mode with its
/// pending command line, and the screen buffer with its dirty rows.
pub struct Editor {
    /// The document.
    pub rope: Rope,
    /// Where the document is saved.
    pub file_path: Option<String>,
    /// The viewport.
    pub screen: ScreenVector,
    /// False once the editor was asked to stop.
    pub is_running: bool,
    pub mode: Mode,
    pub cursor: Cursor,
    /// The command line typed so far in Command mode.
    pub command: String,
    /// What the last command printed.
    pub output: String,
    /// What the last command left to report.
    pub error: EditorError,
    /// The screen buffer: `max_w * max_h` cells, row after row.
    pub grid: Vec<char>,
    /// The dirty rows of the screen buffer.
    pub queued: Vec<usize>,
    /// Whether the next render recomputes every row of the screen buffer.
    pub stale: bool,
    /// Whether the document is to be written to `file_path`.
    pub saving: bool,
}

/// The editor as a mathematical value.
pub struct EditorView {
    pub text: Seq<char>,
    pub path: Option<Seq<char>>,
    pub width: nat,
    pub height: nat,
    /// Terminal row of the first text row.
    pub origin: nat,
    pub place: Place,
    pub running: bool,
    pub mode: Mode,
    pub command: Seq<char>,
    pub output: Seq<char>,
    pub error: Option<Seq<char>>,
    pub grid: Seq<char>,
    pub queued: Seq<usize>,
    pub stale: bool,
    pub saving: bool,
}

impl View for Editor {
    type V = EditorView;

    open spec fn view(&self) -> EditorView {
        EditorView {
            text: rope_text(self.rope),
            path: match self.file_path {
                Some(p) => Some(p@),
                None => None,
            },
            width: self.screen.max_w as nat,
            height: self.screen.max_h as nat,
            origin: self.screen.b as nat,
            place: Place {
                top: self.screen.t as int,
                y: self.cursor.y as int,
                gy: self.cursor.gy as int,
                x: self.cursor.x as int,
                gx: self.cursor.gx as int,
                max_x: self.cursor.max_x as int,
            },
            running: self.is_running,
            mode: self.mode,
            command: self.command@,
            output: self.output@,
            error: self.error.refused(),
            grid: self.grid@,
            queued: self.queued@,
            stale: self.stale,
            saving: self.saving,
        }
    }
}

impl EditorView {
    /// The columns of each line of the document.
    pub open spec fn lens(self) -> Seq<nat> {
        line_lens(self.text)
    }

    /// Line `y` of the document without its line break.
    pub open spec fn line(self, y: int) -> Seq<char> {
        trim_line_end(line_text(self.text, y))
    }

    /// The invariant of the editor: the document has a line, the cursor and
    /// the viewport are settled on it, the screen buffer has one cell for each
    /// column of each row, the dirty rows are rows of it, and the status and
    /// message rows below the text area have terminal rows.
    pub open spec fn wf(self) -> bool {
        &&& line_count(self.text) >= 1
        &&& settled(self.place, self.lens(), self.height, self.mode)
        &&& self.grid.len() == self.width * self.height
        &&& forall|i: int| 0 <= i < self.queued.len() ==> self.queued[i] < self.height
        &&& self.origin + self.height + 1 <= usize::MAX
    }

    /// The editor after the cursor and the viewport went to `place`. The
    /// whole screen is stale where another first line is shown.
    pub open spec fn placed(self, place: Place) -> EditorView {
        EditorView { place, stale: self.stale || place.top != self.place.top, ..self }
    }

    /// The editor after one line up (`delta == -1`) or down (`delta == 1`).
    pub open spec fn moved_vertical(self, delta: int) -> EditorView {
        self.placed(move_vertical(self.place, delta, self.lens(), self.height, self.mode))
    }

    /// The editor after one column left (`delta == -1`) or right
    /// (`delta == 1`).
    pub open spec fn moved_horizontal(self, delta: int) -> EditorView {
        self.placed(move_horizontal(self.place, delta, self.lens(), self.mode))
    }

    /// The editor after the viewport moved by `delta` lines and the cursor's
    /// screen row by `cursor_delta` rows.
    pub open spec fn scrolled(self, delta: int, cursor_delta: int) -> EditorView {
        self.placed(scroll(self.place, delta, cursor_delta, self.lens(), self.height, self.mode))
    }

    /// The editor after a scroll in the direction `delta` with the cursor's
    /// screen row moving in the direction `cursor_direction`.
    pub open spec fn scrolled_to(self, delta: Direction, cursor_direction: Direction) -> EditorView {
        self.scrolled(vertical_steps(delta), vertical_steps(cursor_direction))
    }

    /// The editor with a text area of `height` rows of `width` columns: the
    /// viewport moves just far enough to show the cursor's line, and the
    /// screen buffer is blank and stale.
    pub open spec fn resized(self, width: nat, height: nat) -> EditorView {
        EditorView {
            width,
            height,
            place: Place {
                max_x: self.place.max_x,
                ..settle(self.place, self.lens(), height, self.mode)
            },
            grid: blank(width * height),
            queued: Seq::empty(),
            stale: true,
            ..self
        }
    }

    /// The editor in the mode `new_mode`.
    pub open spec fn in_mode(self, new_mode: Mode) -> EditorView {
        EditorView {
            mode: new_mode,
            place: on_mode_change(self.place, new_mode, self.lens()),
            ..self
        }
    }

    /// The editor after an edit left the text `text` and the cursor at line
    /// `gy`, column `gx`: the cursor settles on the new text.
    pub open spec fn edited(self, text: Seq<char>, gx: int, gy: int) -> EditorView {
        (EditorView { text, ..self }).placed(
            settle(Place { gx, gy, ..self.place }, line_lens(text), self.height, self.mode),
        )
    }
}

/// Last column on which the cursor may rest in a line of `len` columns.
pub fn last_column(len: usize, mode: Mode) -> (e: usize)
    ensures
        e == end_of_line(len as nat, mode),
{
    match mode {
        Mode::Insert => len,
        _ => if len > 0 {
            len - 1
        } else {
            0
        },
    }
}

/// Last screen row of a viewport of `height` rows.
pub fn last_text_row(height: usize) -> (row: usize)
    ensures
        row == last_row(height as nat),
{
    if height == 0 {
        0
    } else {
        height - 1
    }
}

/// Largest first line that a viewport of `height` rows takes on a document
/// of `count` lines.
pub fn first_line_limit(count: usize, height: usize) -> (top: usize)
    ensures
        top == top_limit(count as nat, height as nat),
{
    let rows = last_text_row(height) + 1;
    if count > rows {
        count - rows
    } else {
        0
    }
}

impl Editor {
    /// An editor on the document `rope` with the viewport `screen`, in
    /// Normal mode, the cursor on the first character, the first line on the
    /// first row. The screen buffer is blank and stale, so that the first
    /// render shows the document.
    pub fn new(rope: Rope, file_path: Option<String>, screen: ScreenVector) -> (e: Self)
        requires
            screen.max_w * screen.max_h <= usize::MAX,
            screen.b + screen.max_h + 1 <= usize::MAX,
        ensures
            e@.wf(),
            e@ == (EditorView {
                text: rope_text(rope),
                path: match file_path {
                    Some(p) => Some(p@),
                    None => None,
                },
                width: screen.max_w as nat,
                height: screen.max_h as nat,
                origin: screen.b as nat,
                place: Place { top: 0, y: 0, gy: 0, x: 0, gx: 0, max_x: 0 },
                running: true,
                mode: Mode::Normal,
                command: Seq::empty(),
                output: Seq::empty(),
                error: None,
                grid: blank((screen.max_w * screen.max_h) as nat),
                queued: Seq::empty(),
                stale: true,
                saving: false,
            }),
    {
        let grid = blank_cells(screen.max_w * screen.max_h);
        // A rope has a first line, and the cursor starts on it.
        let count = rope.len_lines();
        Self {
            rope,
            file_path,
            screen: ScreenVector { t: 0, b: screen.b, max_w: screen.max_w, max_h: screen.max_h },
            is_running: true,
            mode: Mode::Normal,
            cursor: Cursor { x: 0, y: 0, gx: 0, gy: 0, max_x: 0 },
            command: String::new(),
            output: String::new(),
            error: EditorError::NONE,
            grid,
            queued: Vec::new(),
            stale: true,
            saving: false,
        }
    }

    /// Line `y` of the document without its line break.
    pub fn line(&self, y: usize) -> (line: Vec<char>)
        requires
            y < line_count(self@.text),
        ensures
            line@ == self@.line(y as int),
            line_start(self@.text, y as int) + line@.len() <= line_start(self@.text, y + 1),
            line_start(self@.text, y + 1) <= self@.text.len(),
            line_start(self@.text, y + 1) <= usize::MAX,
    {
        let s = rope_line(&self.rope, y);
        let v = chars_of(s.as_str());
        proof {
            lemma_trim_line_end(v@);
        }
        trimmed(&v)
    }

    /// Columns of line `y` of the document.
    pub fn line_length(&self, y: usize) -> (n: usize)
        requires
            y < line_count(self@.text),
        ensures
            n == line_len(self@.text, y as int),
            n == self@.lens()[y as int],
    {
        let line = self.line(y);
        display_width(&line)
    }

    /// Whether the editor's invariant holds.
    #[verifier::rlimit(50)]
    pub fn is_consistent(&self) -> (b: bool)
        ensures
            b == self@.wf(),
    {
        let count = self.rope.len_lines();
        let h = self.screen.max_h;
        let last = last_text_row(h);
        let limit = first_line_limit(count, h);
        if self.cursor.gy >= count || self.screen.t > limit || self.cursor.y > last {
            return false;
        }
        if self.cursor.gy < self.screen.t || self.cursor.gy - self.screen.t != self.cursor.y {
            return false;
        }
        if self.cursor.x != self.cursor.gx {
            return false;
        }
        let e = last_column(self.line_length(self.cursor.gy), self.mode);
        if self.cursor.gx > e {
            return false;
        }
        let cells = self.screen.max_w.checked_mul(h);
        assert(self@.width * self@.height == self.screen.max_w * h);
        let have = self.grid.len();
        match cells {
            Some(n) => {
                if have != n {
                    return false;
                }
            },
            None => {
                return false;
            },
        }
        if self.screen.b > usize::MAX - 1 || h > usize::MAX - 1 - self.screen.b {
            return false;
        }
        let mut i: usize = 0;
        while i < self.queued.len()
            invariant
                i <= self.queued.len(),
                h == self.screen.max_h,
                forall|j: int| 0 <= j < i ==> self.queued@[j] < h,
            decreases self.queued.len() - i,
        {
            if self.queued[i] >= h {
                assert(!(self@.queued[i as int] < self@.height));
                return false;
            }
            i += 1;
        }
        true
    }

    /// Puts the cursor on line `gy`, column `gx` as far as the document
    /// allows, and moves the viewport just far enough to show that line.
    #[verifier::rlimit(50)]
    pub fn settle(&mut self, gx: usize, gy: usize)
        ensures
            final(self)@ == old(self)@.placed(
                settle(
                    Place { gx: gx as int, gy: gy as int, ..old(self)@.place },
                    old(self)@.lens(),
                    old(self)@.height,
                    old(self)@.mode,
                ),
            ),
            line_count(final(self)@.text) >= 1,
            settled(final(self)@.place, final(self)@.lens(), final(self)@.height, final(self)@.mode),
    {
        let count = self.rope.len_lines();
        let h = self.screen.max_h;
        let last = last_text_row(h);
        let gy: usize = if gy >= count {
            count - 1
        } else {
            gy
        };
        let t = self.screen.t;
        let shown: usize = if gy < t {
            gy
        } else if gy - t > last {
            gy - last
        } else {
            t
        };
        let limit = first_line_limit(count, h);
        let top: usize = if shown > limit {
            limit
        } else {
            shown
        };
        let e = last_column(self.line_length(gy), self.mode);
        let gx: usize = if gx > e {
            e
        } else {
            gx
        };
        proof {
            lemma_settle_settled(
                Place { gx: gx as int, gy: gy as int, ..old(self)@.place },
                old(self)@.lens(),
                old(self)@.height,
                old(self)@.mode,
            );
        }
        if top != t {
            self.stale = true;
        }
        self.screen.t = top;
        self.cursor = Cursor { x: gx, y: gy - top, gx, gy, max_x: gx };
    }

    /// Gives the text area `height` rows of `width` columns.
    pub fn resize(&mut self, width: usize, height: usize)
        requires
            old(self)@.wf(),
            width * height <= usize::MAX,
            old(self)@.origin + height + 1 <= usize::MAX,
        ensures
            final(self)@ == old(self)@.resized(width as nat, height as nat),
            final(self)@.wf(),
    {
        let grid = blank_cells(width * height);
        let sticky = self.cursor.max_x;
        self.screen.max_w = width;
        self.screen.max_h = height;
        self.settle(self.cursor.gx, self.cursor.gy);
        self.cursor.max_x = sticky;
        self.grid = grid;
        self.queued = Vec::new();
        self.stale = true;
    }

    /// Moves the cursor one line up (`delta == -1`) or down (`delta == 1`).
    #[verifier::rlimit(50)]
    pub fn move_vertical(&mut self, delta: i32)
        requires
            old(self)@.wf(),
            delta == 1 || delta == -1,
        ensures
            final(self)@ == old(self)@.moved_vertical(delta as int),
            final(self)@.wf(),
    {
        proof {
            lemma_move_vertical_settled(
                self@.place,
                delta as int,
                self@.lens(),
                self@.height,
                self@.mode,
            );
        }
        let count = self.rope.len_lines();
        let h = self.screen.max_h;
        let last = last_text_row(h);
        if delta == 1 {
            if self.cursor.gy + 1 >= count {
                return ;
            }
            if self.cursor.y < last {
                self.cursor.y += 1;
            } else {
                self.screen.t += 1;
                self.stale = true;
            }
            self.cursor.gy += 1;
        } else {
            if self.cursor.gy == 0 {
                return ;
            }
            if self.cursor.y > 0 {
                self.cursor.y -= 1;
            } else {
                self.screen.t -= 1;
                self.stale = true;
            }
            self.cursor.gy -= 1;
        }
        let e = last_column(self.line_length(self.cursor.gy), self.mode);
        let gx: usize = if self.cursor.max_x < e {
            self.cursor.max_x
        } else {
            e
        };
        self.cursor.gx = gx;
        self.cursor.x = gx;
        proof {
            let p = old(self)@.place;
            let q = move_vertical(p, delta as int, old(self)@.lens(), old(self)@.height, old(self)@.mode);
            assert(self@.text == old(self)@.text);
            assert(q.gy == p.gy + delta);
            assert(q.gx == gx);
            assert(q.top == self.screen.t);
            assert(q.y == self.cursor.y);
            assert(self@.place == q);
        }
    }

    /// Moves the cursor one column left (`delta == -1`) or right
    /// (`delta == 1`) and makes the new column the sticky column.
    pub fn move_horizontal(&mut self, delta: i32)
        requires
            old(self)@.wf(),
            delta == 1 || delta == -1,
        ensures
            final(self)@ == old(self)@.moved_horizontal(delta as int),
            final(self)@.wf(),
    {
        proof {
            lemma_move_horizontal_anchors(
                self@.place,
                delta as int,
                self@.lens(),
                self@.height,
                self@.mode,
            );
        }
        let e = last_column(self.line_length(self.cursor.gy), self.mode);
        let gx: usize = if delta == 1 {
            if self.cursor.gx < e {
                self.cursor.gx + 1
            } else {
                e
            }
        } else {
            if self.cursor.gx > 0 {
                self.cursor.gx - 1
            } else {
                0
            }
        };
        self.cursor.gx = gx;
        self.cursor.x = gx;
        self.cursor.max_x = gx;
    }

    /// Scrolls the viewport by the lines of `delta` and moves the cursor's
    /// screen row by the rows of `cursor_direction`. With no rows the cursor
    /// keeps its screen row while the content moves under it; with as many
    /// rows against `delta` it stays on its line and moves with the content.
    #[verifier::rlimit(50)]
    pub fn scroll(&mut self, delta: Direction, cursor_direction: Direction)
        requires
            old(self)@.wf(),
        ensures
            final(self)@ == old(self)@.scrolled_to(delta, cursor_direction),
            final(self)@.wf(),
    {
        proof {
            lemma_scroll_settled(
                self@.place,
                vertical_steps(delta),
                vertical_steps(cursor_direction),
                self@.lens(),
                self@.height,
                self@.mode,
            );
        }
        let count = self.rope.len_lines();
        let h = self.screen.max_h;
        let last = last_text_row(h);
        let limit = first_line_limit(count, h);
        let t = self.screen.t;
        let top: usize = match delta {
            Direction::Up(n) => if t >= n as usize {
                t - n as usize
            } else {
                0
            },
            Direction::Down(n) => if n as usize > limit - t {
                limit
            } else {
                t + n as usize
            },
            _ => t,
        };
        assert(top == clamp_int(
            self@.place.top + vertical_steps(delta),
            0,
            top_limit(self@.lens().len(), self@.height),
        ));
        let room: usize = if count - 1 - top < last {
            count - 1 - top
        } else {
            last
        };
        assert(room == min_int(last_row(self@.height), self@.lens().len() - 1 - top));
        let y0 = self.cursor.y;
        let y: usize = match cursor_direction {
            Direction::Up(n) => if y0 >= n as usize {
                y0 - n as usize
            } else {
                0
            },
            Direction::Down(n) => if n as usize > last - y0 || y0 + n as usize > room {
                room
            } else {
                y0 + n as usize
            },
            _ => y0,
        };
        let y: usize = if y > room {
            room
        } else {
            y
        };
        assert(y == clamp_int(self@.place.y + vertical_steps(cursor_direction), 0, room as int));
        let gy: usize = top + y;
        let e = last_column(self.line_length(gy), self.mode);
        assert(e == eol(self@.lens(), gy as int, self@.mode));
        let gx: usize = if self.cursor.max_x < e {
            self.cursor.max_x
        } else {
            e
        };
        if top != t {
            self.stale = true;
        }
        self.screen.t = top;
        self.cursor.y = y;
        self.cursor.gy = gy;
        self.cursor.gx = gx;
        self.cursor.x = gx;
    }

    /// Recomputes the column for the mode `new_mode` and enters that mode.
    pub fn on_mode_change(&mut self, new_mode: Mode)
        requires
            old(self)@.wf(),
        ensures
            final(self)@ == old(self)@.in_mode(new_mode),
            final(self)@.wf(),
    {
        proof {
            lemma_mode_change_settled(
                self@.place,
                self@.mode,
                new_mode,
                self@.lens(),
                self@.height,
            );
        }
        let e = last_column(self.line_length(self.cursor.gy), new_mode);
        let gx: usize = if self.cursor.gx < e {
            self.cursor.gx
        } else {
            e
        };
        self.cursor.gx = gx;
        self.cursor.x = gx;
        self.mode = new_mode;
    }
}

} // verus!
