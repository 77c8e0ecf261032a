//! The viewport, and the frame that a render cycle sends to the terminal.

use crate::editor::{Cursor, Editor, EditorError, EditorView, Mode};
use crate::rope::line_count;
use crate::screen::{
    blank, blank_cells, drain_dirty, drained, grid_of, grid_row, lemma_mul_le, lemma_mul_step, marked_range,
    replace_row, screen_row,
};
use crate::text::{
    append_chars, chars_of, count_in, count_of, decimal, decimal_of, fit, fitted, lines_of,
    padded_row, split_lines, string_of,
};
use vstd::prelude::*;

verus! {

/// The viewport: which part of the document the text area shows and where
/// on the terminal the text area lies.
#[derive(Clone, Copy, Debug)]
pub struct ScreenVector {
    /// First document line shown.
    pub t: usize,
    /// Terminal row of the first text row.
    pub b: usize,
    /// Width of the text area in columns.
    pub max_w: usize,
    /// Height of the text area in rows; the status and message rows lie
    /// below it.
    pub max_h: usize,
}

impl ScreenVector {
    pub fn new(t: usize, b: usize, max_w: usize, max_h: usize) -> (s: Self)
        ensures
            s.t == t,
            s.b == b,
            s.max_w == max_w,
            s.max_h == max_h,
    {
        Self { t, b, max_w, max_h }
    }

    /// The two offsets, `t` and `b`.
    pub fn _origin(&self) -> (o: (usize, usize))
        ensures
            o.0 == self.t,
            o.1 == self.b,
    {
        (self.t, self.b)
    }

    /// `t` plus the width: the end of the span of `max_w` that starts at `t`.
    pub fn _right(&self) -> (r: usize)
        requires
            self.t + self.max_w <= usize::MAX,
        ensures
            r == self.t + self.max_w,
    {
        self.t + self.max_w
    }

    /// `t`: the start of the span of `max_w` that ends at `_right`.
    pub fn _left(&self) -> (r: usize)
        ensures
            r == self.t,
    {
        self.t
    }

    /// Terminal row of the first text row.
    pub fn _top(&self) -> (r: usize)
        ensures
            r == self.b,
    {
        self.b
    }

    /// Terminal row below the last text row, which holds the status line.
    pub fn bottom(&self) -> (r: usize)
        requires
            self.b + self.max_h <= usize::MAX,
        ensures
            r == self.b + self.max_h,
    {
        self.b + self.max_h
    }
}

/// Rows of a terminal below the text area: the status line and the message
/// line.
pub const BAR_ROWS: u16 = 2;

/// The viewport on a terminal of `w` columns and `h` rows: the text area
/// starts at the first terminal row and leaves the last `BAR_ROWS` rows to
/// the status line and the message line. A terminal of fewer rows has no text
/// rows.
pub fn screen_size(w: u16, h: u16) -> (s: ScreenVector)
    ensures
        s.t == 0,
        s.b == 0,
        s.max_w == w,
        s.max_h == if h >= BAR_ROWS {
            h - BAR_ROWS
        } else {
            0
        },
{
    let rows: u16 = if h >= BAR_ROWS {
        h - BAR_ROWS
    } else {
        0
    };
    ScreenVector::new(0, 0, w as usize, rows as usize)
}

/// Counting a character in a text.
pub trait StringCount {
    /// The characters of the text.
    spec fn counted(&self) -> Seq<char>;

    /// Number of occurrences of `chr`.
    fn count_char(&self, chr: char) -> (n: usize)
        ensures
            n == count_of(self.counted(), chr),
    ;
}

impl StringCount for String {
    open spec fn counted(&self) -> Seq<char> {
        self@
    }

    fn count_char(&self, chr: char) -> (n: usize) {
        let chars = chars_of(self.as_str());
        count_in(&chars, chr)
    }
}

/// The rows of a text area of `h` rows of `w` columns that shows `lines`,
/// each followed by a carriage return and a line feed.
pub open spec fn text_area(lines: Seq<Seq<char>>, w: nat, h: nat) -> Seq<char>
    decreases h,
{
    if h == 0 {
        Seq::empty()
    } else {
        text_area(lines, w, (h - 1) as nat) + screen_row(lines, h - 1, w) + seq!['\r', '\n']
    }
}

/// Lays `text` out for a text area of `height` rows of `width` columns: one
/// row per line, tabs expanded, cut or filled to `width`, blank rows below
/// the last line, each row followed by a carriage return and a line feed.
pub fn format_text(text: &mut String, width: usize, height: usize)
    ensures
        final(text)@ == text_area(split_lines(old(text)@), width as nat, height as nat),
{
    let chars = chars_of(text.as_str());
    let lines = lines_of(&chars);
    let ghost rows = split_lines(text@);
    let mut out: Vec<char> = Vec::new();
    let mut r: usize = 0;
    while r < height
        invariant
            r <= height,
            lines.len() == rows.len(),
            forall|i: int| 0 <= i < lines.len() ==> (#[trigger] lines[i])@ == rows[i],
            out@ == text_area(rows, width as nat, r as nat),
        decreases height - r,
    {
        let row = if r < lines.len() {
            padded_row(&lines[r], width)
        } else {
            blank_cells(width)
        };
        assert(row@ == screen_row(rows, r as int, width as nat));
        append_chars(&mut out, &row);
        out.push('\r');
        out.push('\n');
        assert(out@ == text_area(rows, width as nat, r as nat) + row@ + seq!['\r', '\n']);
        r += 1;
    }
    *text = string_of(&out);
}

/// `line` filled with spaces on the right to `length` characters; a longer
/// line stays as it is.
pub open spec fn filled(line: Seq<char>, length: nat) -> Seq<char> {
    if line.len() < length {
        line + blank((length - line.len()) as nat)
    } else {
        line
    }
}

/// Fills `line` with spaces on the right to `length` characters.
pub fn format_command_bar(line: &mut String, length: usize)
    ensures
        final(line)@ == filled(old(line)@, length as nat),
{
    let mut chars = chars_of(line.as_str());
    let n = chars.len();
    if n < length {
        let mut i: usize = n;
        while i < length
            invariant
                n <= i <= length,
                chars@ == old(line)@ + blank((i - n) as nat),
            decreases length - i,
        {
            chars.push(' ');
            i += 1;
        }
        *line = string_of(&chars);
    }
}

/// The name of a mode, as the status line shows it.
pub open spec fn mode_name(mode: Mode) -> Seq<char> {
    match mode {
        Mode::Insert => "Insert"@,
        Mode::Normal => "Normal"@,
        Mode::Command => "Command"@,
    }
}

/// The cursor's place in the document, as the status line shows it: column,
/// a slash, line.
pub open spec fn cursor_label(gx: nat, gy: nat) -> Seq<char> {
    decimal(gx) + seq!['/'] + decimal(gy)
}

/// What is shown of a refused command.
pub open spec fn error_text(error: Option<Seq<char>>) -> Seq<char> {
    match error {
        Some(c) => "Invalid Command: "@ + c,
        None => Seq::empty(),
    }
}

/// The status line at width `w`: the mode's name on the left, the cursor's
/// place on the right, cut to `w` columns where the two do not fit.
pub open spec fn status_text(mode: Mode, gx: nat, gy: nat, w: nat) -> Seq<char> {
    let name = mode_name(mode);
    let label = cursor_label(gx, gy);
    fit(filled(name, if w >= label.len() { (w - label.len()) as nat } else { 0 }) + label, w)
}

/// The message line: in Command mode a colon and the command line typed so
/// far, and else what the last command left, a refusal or its output.
pub open spec fn message_text(v: EditorView) -> Seq<char> {
    fit(
        if v.mode == Mode::Command {
            seq![':'] + v.command
        } else if v.error is Some {
            error_text(v.error)
        } else {
            v.output
        },
        v.width,
    )
}

impl Mode {
    /// The name of the mode.
    pub fn name(&self) -> (s: String)
        ensures
            s@ == mode_name(*self),
    {
        match self {
            Mode::Insert => "Insert".to_owned(),
            Mode::Normal => "Normal".to_owned(),
            Mode::Command => "Command".to_owned(),
        }
    }
}

impl Cursor {
    /// The cursor's place in the document: column, a slash, line.
    pub fn label(&self) -> (s: String)
        ensures
            s@ == cursor_label(self.gx as nat, self.gy as nat),
    {
        let mut chars = decimal_of(self.gx);
        chars.push('/');
        let line = decimal_of(self.gy);
        append_chars(&mut chars, &line);
        string_of(&chars)
    }
}

impl EditorError {
    /// What is shown of the error: nothing where there is none.
    pub fn message(&self) -> (s: String)
        ensures
            s@ == error_text(self.refused()),
    {
        match self {
            EditorError::InvalidCommand(c) => {
                let mut chars = chars_of("Invalid Command: ");
                let tail = chars_of(c.as_str());
                append_chars(&mut chars, &tail);
                string_of(&chars)
            },
            EditorError::NONE => String::new(),
        }
    }
}

/// One instruction to the terminal.
#[derive(Debug, PartialEq, Eq)]
pub enum Paint {
    /// Hide the cursor.
    Hide,
    /// Move to a column and a row.
    MoveTo(usize, usize),
    /// Write text.
    Print(String),
    /// Write text that reports an error.
    PrintError(String),
    /// Show the cursor.
    Show,
    /// Send what was written so far.
    Flush,
}

/// An instruction to the terminal as a mathematical value.
pub enum PaintView {
    Hide,
    MoveTo(nat, nat),
    Print(Seq<char>),
    PrintError(Seq<char>),
    Show,
    Flush,
}

impl View for Paint {
    type V = PaintView;

    open spec fn view(&self) -> PaintView {
        match self {
            Paint::Hide => PaintView::Hide,
            Paint::MoveTo(x, y) => PaintView::MoveTo(*x as nat, *y as nat),
            Paint::Print(s) => PaintView::Print(s@),
            Paint::PrintError(s) => PaintView::PrintError(s@),
            Paint::Show => PaintView::Show,
            Paint::Flush => PaintView::Flush,
        }
    }
}

/// The instructions of `frame` as mathematical values.
pub open spec fn paint_views(frame: Seq<Paint>) -> Seq<PaintView> {
    Seq::new(frame.len(), |i: int| frame[i]@)
}

/// The instructions that write the rows `rows` of `grid`, in order: for
/// each a move to the start of its terminal row and the row's cells.
pub open spec fn rows_painted(grid: Seq<char>, w: nat, origin: nat, rows: Seq<usize>) -> Seq<
    PaintView,
>
    decreases rows.len(),
{
    if rows.len() == 0 {
        Seq::empty()
    } else {
        rows_painted(grid, w, origin, rows.drop_last()) + seq![
            PaintView::MoveTo(0, origin + rows.last() as nat),
            PaintView::Print(grid_row(grid, w, rows.last() as int)),
        ]
    }
}

impl EditorView {
    /// The lines of the document that the viewport shows, first row first.
    pub open spec fn shown_lines(self) -> Seq<Seq<char>> {
        Seq::new(
            if line_count(self.text) - self.place.top < self.height {
                (line_count(self.text) - self.place.top) as nat
            } else {
                self.height
            },
            |r: int| self.line(self.place.top + r),
        )
    }

    /// The editor with a stale screen buffer computed anew: every row shows
    /// its line of the document and is dirty. A screen buffer that is not
    /// stale stays.
    pub open spec fn refreshed(self) -> EditorView {
        if self.stale {
            EditorView {
                grid: grid_of(self.shown_lines(), self.width, self.height),
                queued: marked_range(self.queued, 0, self.height as int),
                stale: false,
                ..self
            }
        } else {
            self
        }
    }

    /// The editor after a render cycle: the screen buffer is fresh and no
    /// row is dirty.
    pub open spec fn rendered(self) -> EditorView {
        EditorView { queued: drained(self.refreshed().queued).1, ..self.refreshed() }
    }

    /// The instruction that writes the message line.
    pub open spec fn message_paint(self) -> PaintView {
        if self.mode != Mode::Command && self.error is Some {
            PaintView::PrintError(message_text(self))
        } else {
            PaintView::Print(message_text(self))
        }
    }

    /// The frame of a render cycle on an editor whose screen buffer is
    /// fresh: the cursor is hidden, each dirty row is written, in order, then
    /// the status line and the message line below the text area; the cursor
    /// is put on its screen column and row and shown as the last thing
    /// written, and all is sent at once.
    pub open spec fn frame(self) -> Seq<PaintView> {
        seq![PaintView::Hide] + rows_painted(self.grid, self.width, self.origin, self.queued)
            + seq![
            PaintView::MoveTo(0, self.origin + self.height),
            PaintView::Print(
                status_text(self.mode, self.place.gx as nat, self.place.gy as nat, self.width),
            ),
            PaintView::MoveTo(0, self.origin + self.height + 1),
            self.message_paint(),
            PaintView::MoveTo(self.place.x as nat, (self.origin + self.place.y) as nat),
            PaintView::Show,
            PaintView::Flush,
        ]
    }
}

/// The instructions that write rows only move and print.
pub proof fn lemma_rows_painted(grid: Seq<char>, w: nat, origin: nat, rows: Seq<usize>)
    ensures
        rows_painted(grid, w, origin, rows).len() == 2 * rows.len(),
        forall|i: int|
            0 <= i < rows_painted(grid, w, origin, rows).len() ==> {
                let paint = #[trigger] rows_painted(grid, w, origin, rows)[i];
                paint is MoveTo || paint is Print
            },
    decreases rows.len(),
{
    if rows.len() > 0 {
        lemma_rows_painted(grid, w, origin, rows.drop_last());
    }
}

/// The order of a frame: it begins by hiding the cursor; its last three
/// instructions put the cursor on its screen column and row, show it, and
/// send the frame; nothing is sent before the end, and the cursor is not
/// shown before all rows are written.
pub proof fn lemma_frame_order(v: EditorView)
    ensures
        v.frame().len() == 2 * v.queued.len() + 8,
        v.frame()[0] == PaintView::Hide,
        v.frame()[v.frame().len() - 3] == PaintView::MoveTo(
            v.place.x as nat,
            (v.origin + v.place.y) as nat,
        ),
        v.frame()[v.frame().len() - 2] == PaintView::Show,
        v.frame()[v.frame().len() - 1] == PaintView::Flush,
        forall|i: int| 0 <= i < v.frame().len() - 1 ==> !((#[trigger] v.frame()[i]) is Flush),
        forall|i: int| 0 <= i < v.frame().len() - 2 ==> !((#[trigger] v.frame()[i]) is Show),
{
    let rows = rows_painted(v.grid, v.width, v.origin, v.queued);
    lemma_rows_painted(v.grid, v.width, v.origin, v.queued);
    let f = v.frame();
    assert forall|i: int| 0 <= i < f.len() - 2 implies !((#[trigger] f[i]) is Show) && !(f[i] is Flush) by {
        if 1 <= i < 1 + rows.len() {
            assert(f[i] == rows[i - 1]);
        }
    }
}

/// The status line of an editor in `mode` with the cursor `cursor`, at
/// width `width`.
pub fn status_line(mode: Mode, cursor: &Cursor, width: usize) -> (line: Vec<char>)
    ensures
        line@ == status_text(mode, cursor.gx as nat, cursor.gy as nat, width as nat),
{
    let name = mode.name();
    let label = cursor.label();
    let mut text = chars_of(name.as_str());
    let tail = chars_of(label.as_str());
    let room: usize = if width >= tail.len() {
        width - tail.len()
    } else {
        0
    };
    let n = text.len();
    if n < room {
        let mut i: usize = n;
        while i < room
            invariant
                n <= i <= room,
                text@ == name@ + blank((i - n) as nat),
            decreases room - i,
        {
            text.push(' ');
            i += 1;
        }
    }
    append_chars(&mut text, &tail);
    fitted(&text, width)
}

/// The message line of `editor`.
pub fn message_line(editor: &Editor) -> (line: Vec<char>)
    ensures
        line@ == message_text(editor@),
{
    let text = match editor.mode {
        Mode::Command => {
            let mut text: Vec<char> = Vec::new();
            text.push(':');
            let command = chars_of(editor.command.as_str());
            append_chars(&mut text, &command);
            text
        },
        _ => match editor.error {
            EditorError::InvalidCommand(_) => chars_of(editor.error.message().as_str()),
            EditorError::NONE => chars_of(editor.output.as_str()),
        },
    };
    fitted(&text, editor.screen.max_w)
}

/// The cells of row `row` of a grid of width `w`.
pub fn row_cells(grid: &Vec<char>, w: usize, row: usize) -> (cells: Vec<char>)
    requires
        row * w + w <= grid.len(),
    ensures
        cells@ == grid_row(grid@, w as nat, row as int),
{
    proof {
        lemma_mul_le(0, row as int, w as int);
    }
    let start: usize = row * w;
    let mut cells: Vec<char> = Vec::new();
    let mut i: usize = 0;
    while i < w
        invariant
            i <= w,
            start == row * w,
            start + w <= grid.len(),
            cells@ == grid@.subrange(start as int, start + i),
        decreases w - i,
    {
        cells.push(grid[start + i]);
        i += 1;
    }
    cells
}

/// Computes a stale screen buffer anew from the document, every row, and
/// marks every row dirty. A screen buffer that is not stale stays.
#[verifier::rlimit(50)]
pub fn refresh(editor: &mut Editor)
    requires
        old(editor)@.wf(),
    ensures
        final(editor)@ == old(editor)@.refreshed(),
        final(editor)@.wf(),
{
    if !editor.stale {
        return ;
    }
    let w = editor.screen.max_w;
    let h = editor.screen.max_h;
    let t = editor.screen.t;
    let count = editor.rope.len_lines();
    let ghost lines = editor@.shown_lines();
    let ghost before = editor@;
    let mut r: usize = 0;
    assert(editor@.grid.take(0) == grid_of(lines, w as nat, 0));
    while r < h
        invariant
            r <= h,
            w == editor.screen.max_w,
            h == editor.screen.max_h,
            t == editor.screen.t,
            count == line_count(editor@.text),
            t < count,
            editor.grid.len() == w * h,
            lines == before.shown_lines(),
            editor@ == (EditorView { grid: editor@.grid, queued: editor@.queued, ..before }),
            editor@.grid.take(r * w) == grid_of(lines, w as nat, r as nat),
            editor@.queued == marked_range(before.queued, 0, r as int),
            forall|i: int| 0 <= i < editor@.queued.len() ==> editor@.queued[i] < h,
        decreases h - r,
    {
        let row = if r < count - t {
            let line = editor.line(t + r);
            padded_row(&line, w)
        } else {
            blank_cells(w)
        };
        proof {
            assert(row@ == screen_row(lines, r as int, w as nat));
            lemma_mul_step(r as int, w as int);
            lemma_mul_le(r + 1, h as int, w as int);
            lemma_mul_le(0, r as int, w as int);
            assert(w * h == h * w) by (nonlinear_arith);
        }
        let ghost grid = editor.grid@;
        replace_row(r, w, row.as_slice(), &mut editor.grid, &mut editor.queued);
        proof {
            assert(editor.grid@.take((r + 1) * w) == grid.take(r * w) + row@);
        }
        r += 1;
    }
    proof {
        assert(w * h == h * w) by (nonlinear_arith);
        assert(editor@.grid.take(h * w) == editor@.grid);
    }
    editor.stale = false;
}

/// One render cycle. A stale screen buffer is computed anew. The frame
/// hides the cursor, writes each dirty row, in order, then the status line
/// and the message line; it puts the cursor on its screen column and row and
/// shows it as the last thing written, and sends all at once. Afterwards no
/// row is dirty.
#[verifier::rlimit(50)]
pub fn render(editor: &mut Editor) -> (frame: Vec<Paint>)
    requires
        old(editor)@.wf(),
    ensures
        final(editor)@ == old(editor)@.rendered(),
        final(editor)@.wf(),
        paint_views(frame@) == old(editor)@.refreshed().frame(),
{
    refresh(editor);
    let ghost fresh = editor@;
    let w = editor.screen.max_w;
    let h = editor.screen.max_h;
    let b = editor.screen.b;
    let rows = drain_dirty(&mut editor.queued);
    assert(rows@ == fresh.queued);
    assert(fresh.wf());
    let mut frame: Vec<Paint> = Vec::new();
    frame.push(Paint::Hide);
    let mut i: usize = 0;
    assert(rows@.take(0) == Seq::<usize>::empty());
    assert(paint_views(frame@) == seq![PaintView::Hide] + rows_painted(
        fresh.grid,
        w as nat,
        b as nat,
        rows@.take(0),
    ));
    while i < rows.len()
        invariant
            i <= rows.len(),
            editor.grid@ == fresh.grid,
            editor.grid.len() == w * h,
            b + h + 1 <= usize::MAX,
            forall|j: int| 0 <= j < rows.len() ==> rows@[j] < h,
            paint_views(frame@) == seq![PaintView::Hide] + rows_painted(
                fresh.grid,
                w as nat,
                b as nat,
                rows@.take(i as int),
            ),
        decreases rows.len() - i,
    {
        let r = rows[i];
        proof {
            lemma_mul_step(r as int, w as int);
            lemma_mul_le(r + 1, h as int, w as int);
            assert(w * h == h * w) by (nonlinear_arith);
            assert(rows@.take(i + 1).drop_last() == rows@.take(i as int));
            assert(rows@.take(i + 1).last() == r);
        }
        let cells = row_cells(&editor.grid, w, r);
        let ghost before = paint_views(frame@);
        frame.push(Paint::MoveTo(0, b + r));
        frame.push(Paint::Print(string_of(&cells)));
        assert(paint_views(frame@) == before + seq![
            PaintView::MoveTo(0, (b + r) as nat),
            PaintView::Print(grid_row(fresh.grid, w as nat, r as int)),
        ]);
        i += 1;
    }
    assert(rows@.take(i as int) == rows@);
    let ghost painted = paint_views(frame@);
    let status = status_line(editor.mode, &editor.cursor, w);
    let message = message_line(editor);
    let alert = match editor.mode {
        Mode::Command => false,
        _ => match editor.error {
            EditorError::InvalidCommand(_) => true,
            EditorError::NONE => false,
        },
    };
    frame.push(Paint::MoveTo(0, b + h));
    frame.push(Paint::Print(string_of(&status)));
    frame.push(Paint::MoveTo(0, b + h + 1));
    if alert {
        frame.push(Paint::PrintError(string_of(&message)));
    } else {
        frame.push(Paint::Print(string_of(&message)));
    }
    frame.push(Paint::MoveTo(editor.cursor.x, b + editor.cursor.y));
    frame.push(Paint::Show);
    frame.push(Paint::Flush);
    assert(paint_views(frame@) == painted + seq![
        PaintView::MoveTo(0, fresh.origin + fresh.height),
        PaintView::Print(
            status_text(fresh.mode, fresh.place.gx as nat, fresh.place.gy as nat, fresh.width),
        ),
        PaintView::MoveTo(0, fresh.origin + fresh.height + 1),
        fresh.message_paint(),
        PaintView::MoveTo(fresh.place.x as nat, (fresh.origin + fresh.place.y) as nat),
        PaintView::Show,
        PaintView::Flush,
    ]);
    frame
}

/// One render cycle where the editor's invariant holds, and nothing where
/// it does not.
pub fn draw(editor: &mut Editor) -> (frame: Option<Vec<Paint>>)
    ensures
        frame is Some == old(editor)@.wf(),
        frame matches Some(f) ==> {
            &&& final(editor)@ == old(editor)@.rendered()
            &&& final(editor)@.wf()
            &&& paint_views(f@) == old(editor)@.refreshed().frame()
        },
        frame is None ==> final(editor)@ == old(editor)@,
{
    if editor.is_consistent() {
        Some(render(editor))
    } else {
        None
    }
}

} // verus!
