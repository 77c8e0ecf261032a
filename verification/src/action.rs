//! The editing actions: what each does to the editor, and the turn of the
//! editor's loop that looks a key up and carries its action out.

use crate::command::{command_of, parse_command, Command};
use crate::editor::{last_column, line_len, Editor, EditorError, EditorView, Mode};
use crate::event::{Direction, EditorEvent, Event, KeyEvent};
use crate::keymapper::Mapper;
use crate::motion::eol;
use crate::render::{draw, paint_views, screen_size, Paint, BAR_ROWS};
use crate::rope::{line_start, rope_remove, without};
use crate::screen::{grid_row, insert_char_in_row, marked, overlay, replace_row, row_with_char};
use crate::text::{
    chars_of, chars_within, char_width, decimal, decimal_of, display_len, display_width,
    ends_line, is_line_ending, leading_chars, lemma_expand_tabs_push, padded_row, push_char,
    row_of, string_of, TAB_WIDTH,
};
use vstd::prelude::*;

verus! {

impl EditorView {
    /// Number of characters of the cursor's line that lie left of the cursor.
    pub open spec fn cursor_chars(self) -> nat {
        chars_within(self.line(self.place.gy), self.place.gx)
    }

    /// Index in the text of the character that the cursor is on.
    pub open spec fn cursor_index(self) -> int {
        line_start(self.text, self.place.gy) + self.cursor_chars()
    }

    /// Column at which the character that the cursor is on begins.
    pub open spec fn cursor_column(self) -> int {
        display_len(self.line(self.place.gy).take(self.cursor_chars() as int)) as int
    }

    /// Whether an edit that led from this editor to `after` changed the
    /// cursor's screen row and no other: the row is shown, the cursor is
    /// still on its line, and the viewport neither moved nor was stale.
    pub open spec fn touched_row_only(self, after: EditorView) -> bool {
        !after.stale && self.place.y < self.height && after.place.gy == self.place.gy
    }

    /// The editor with the cursor's screen row computed anew from the
    /// cursor's line, and marked dirty.
    pub open spec fn row_redrawn(self) -> EditorView {
        EditorView {
            grid: overlay(
                self.grid,
                self.place.y * self.width,
                row_of(self.line(self.place.gy), self.width),
            ),
            queued: marked(self.queued, self.place.y as usize),
            ..self
        }
    }

    /// The editor after `c` was typed: `c` goes into the document before the
    /// character that the cursor is on, and the cursor behind `c`. Where only
    /// the cursor's row changed and `c` takes one column, `c` is put into that
    /// row of the screen buffer; else the screen is stale.
    pub open spec fn typed(self, c: char) -> EditorView {
        let col = self.cursor_column();
        let after = self.edited(
            self.text.insert(self.cursor_index(), c),
            col + char_width(c),
            self.place.gy,
        );
        if self.touched_row_only(after) && c != '\t' && !is_line_ending(c) {
            EditorView {
                grid: overlay(
                    self.grid,
                    self.place.y * self.width,
                    row_with_char(
                        grid_row(self.grid, self.width, self.place.y),
                        col,
                        c,
                    ),
                ),
                queued: marked(self.queued, self.place.y as usize),
                ..after
            }
        } else {
            EditorView { stale: true, ..after }
        }
    }

    /// The editor after the characters `chars` were typed, first to last.
    pub open spec fn typed_all(self, chars: Seq<char>) -> EditorView
        decreases chars.len(),
    {
        if chars.len() == 0 {
            self
        } else {
            self.typed_all(chars.drop_last()).typed(chars.last())
        }
    }

    /// The editor after the line was broken at the cursor: a line feed goes
    /// into the document and the cursor to the start of the next line.
    pub open spec fn broken(self) -> EditorView {
        EditorView {
            stale: true,
            ..self.edited(self.text.insert(self.cursor_index(), '\n'), 0, self.place.gy + 1)
        }
    }

    /// The editor after a deletion to the left. With a character left of the
    /// cursor, that character leaves the document and the cursor takes its
    /// column. At the start of a line below the first, the line break before
    /// it leaves the document: the line joins the line above, and the cursor
    /// stands where that line ended. On the first character of the document
    /// nothing changes.
    pub open spec fn erased(self) -> EditorView {
        let gy = self.place.gy;
        let line = self.line(gy);
        let k = self.cursor_chars();
        if k > 0 {
            let at = line_start(self.text, gy) + k - 1;
            let after = self.edited(
                without(self.text, at, at + 1),
                display_len(line.take(k - 1)) as int,
                gy,
            );
            if self.touched_row_only(after) {
                after.row_redrawn()
            } else {
                EditorView { stale: true, ..after }
            }
        } else if self.place.gx > 0 {
            self.edited(self.text, 0, gy)
        } else if gy > 0 {
            let from = line_start(self.text, gy - 1) + self.line(gy - 1).len();
            EditorView {
                stale: true,
                ..self.edited(
                    without(self.text, from, line_start(self.text, gy)),
                    line_len(self.text, gy - 1) as int,
                    gy - 1,
                )
            }
        } else {
            self
        }
    }

    /// The editor after `n` moves of one line in the direction `delta`.
    pub open spec fn moved_vertical_by(self, delta: int, n: nat) -> EditorView
        decreases n,
    {
        if n == 0 {
            self
        } else {
            self.moved_vertical_by(delta, (n - 1) as nat).moved_vertical(delta)
        }
    }

    /// The editor after `n` moves of one column in the direction `delta`.
    pub open spec fn moved_horizontal_by(self, delta: int, n: nat) -> EditorView
        decreases n,
    {
        if n == 0 {
            self
        } else {
            self.moved_horizontal_by(delta, (n - 1) as nat).moved_horizontal(delta)
        }
    }

    /// The editor after the cursor moved as `direction` says, one line or
    /// column per step.
    pub open spec fn cursor_moved(self, direction: Direction) -> EditorView {
        match direction {
            Direction::Up(n) => self.moved_vertical_by(-1, n as nat),
            Direction::Down(n) => self.moved_vertical_by(1, n as nat),
            Direction::Left(n) => self.moved_horizontal_by(-1, n as nat),
            Direction::Right(n) => self.moved_horizontal_by(1, n as nat),
        }
    }

    /// The editor in Normal mode, the pending command line dropped.
    pub open spec fn command_left(self) -> EditorView {
        EditorView { command: Seq::empty(), ..self.in_mode(Mode::Normal) }
    }

    /// The editor in Command mode with an empty command line and nothing
    /// left to report.
    pub open spec fn command_begun(self) -> EditorView {
        EditorView {
            command: Seq::empty(),
            output: Seq::empty(),
            error: None,
            ..self.in_mode(Mode::Command)
        }
    }

    /// The editor with `c` appended to the command line.
    pub open spec fn command_pushed(self, c: char) -> EditorView {
        EditorView { command: self.command.push(c), ..self }
    }

    /// The editor with the last character of the command line dropped.
    pub open spec fn command_popped(self) -> EditorView {
        if self.command.len() > 0 {
            EditorView { command: self.command.drop_last(), ..self }
        } else {
            self
        }
    }

    /// The editor after the command `command` was carried out. `Quit` stops
    /// the editor. `Write` asks for the document to be saved where it has a
    /// file, and is refused where it has none. The other known commands print
    /// their answer. A command line that names no command is refused.
    pub open spec fn carried_out(self, command: Command) -> EditorView {
        match command {
            Command::Quit => EditorView { running: false, ..self },
            Command::Write => if self.path is Some {
                EditorView { saving: true, error: None, ..self }
            } else {
                EditorView { error: Some(self.command), ..self }
            },
            Command::LineLength => EditorView {
                output: decimal(eol(self.lens(), self.place.gy, self.mode) as nat),
                ..self
            },
            Command::Height => EditorView { output: decimal(self.height), ..self },
            Command::Line => EditorView { output: self.line(self.place.gy), ..self },
            Command::Unknown => EditorView { error: Some(self.command), ..self },
        }
    }

    /// The editor after the command line was run: the command is carried
    /// out, the command line is emptied and the editor is in Normal mode.
    pub open spec fn command_run(self) -> EditorView {
        self.carried_out(command_of(self.command)).command_left()
    }

    /// The editor after the action `event`.
    pub open spec fn applied(self, event: EditorEvent) -> EditorView {
        match event {
            EditorEvent::Cursor(direction) => self.cursor_moved(direction),
            EditorEvent::Scroll(delta, cursor_direction) => self.scrolled_to(
                delta,
                cursor_direction,
            ),
            EditorEvent::ModeNormal => self.command_left(),
            EditorEvent::ModeCommand => self.command_begun(),
            EditorEvent::ModeInsert => self.in_mode(Mode::Insert),
            EditorEvent::Quit => EditorView { running: false, ..self },
            EditorEvent::Insert(c) => self.typed(c),
            EditorEvent::Indent => self.typed_all(Seq::new(TAB_WIDTH as nat, |i: int| ' ')),
            EditorEvent::NewLine => self.broken(),
            EditorEvent::Backspace => self.erased(),
            EditorEvent::CommandPush(c) => self.command_pushed(c),
            EditorEvent::CommandPop => self.command_popped(),
            EditorEvent::CommandRun => self.command_run(),
        }
    }
}

/// Last column of the cursor's line on which the cursor may rest.
pub fn end_of_line_without_new_line(editor: &Editor) -> (e: usize)
    requires
        editor@.wf(),
    ensures
        e == eol(editor@.lens(), editor@.place.gy, editor@.mode),
{
    last_column(editor.line_length(editor.cursor.gy), editor.mode)
}

/// A shown row of the screen buffer lies within the buffer.
proof fn lemma_row_in_grid(y: int, w: int, h: int)
    requires
        0 <= y < h,
        0 <= w,
    ensures
        y * w + w <= w * h,
        0 <= y * w,
{
    assert(y * w + w <= w * h) by (nonlinear_arith)
        requires
            0 <= y < h,
            0 <= w,
    ;
    assert(0 <= y * w) by (nonlinear_arith)
        requires
            0 <= y,
            0 <= w,
    ;
}

/// Types `c` at the cursor: `c` goes into the document before the character
/// that the cursor is on, and the cursor behind `c`.
#[verifier::rlimit(50)]
pub fn insert_char_to_rope(editor: &mut Editor, c: char)
    requires
        old(editor)@.wf(),
    ensures
        final(editor)@ == old(editor)@.typed(c),
        final(editor)@.wf(),
{
    let gy = editor.cursor.gy;
    let y = editor.cursor.y;
    let line = editor.line(gy);
    let (k, col) = leading_chars(&line, editor.cursor.gx);
    let start = editor.rope.line_to_char(gy);
    editor.rope.insert_char(start + k, c);
    let width: usize = if c == '\t' {
        TAB_WIDTH
    } else {
        1
    };
    let target: usize = if col > usize::MAX - width {
        usize::MAX
    } else {
        col + width
    };
    editor.settle(target, gy);
    if !editor.stale && y < editor.screen.max_h && editor.cursor.gy == gy && c != '\t'
        && !ends_line(c) {
        proof {
            lemma_row_in_grid(y as int, editor.screen.max_w as int, editor.screen.max_h as int);
        }
        insert_char_in_row(
            y,
            col,
            c,
            editor.screen.max_w,
            &mut editor.grid,
            &mut editor.queued,
        );
    } else {
        editor.stale = true;
    }
}

/// Types the characters of `s` at the cursor, first to last.
pub fn insert_str_to_rope(editor: &mut Editor, s: &str)
    requires
        old(editor)@.wf(),
    ensures
        final(editor)@ == old(editor)@.typed_all(s@),
        final(editor)@.wf(),
{
    let chars = chars_of(s);
    let mut i: usize = 0;
    assert(chars@.take(0) == Seq::<char>::empty());
    while i < chars.len()
        invariant
            i <= chars.len(),
            editor@.wf(),
            editor@ == old(editor)@.typed_all(chars@.take(i as int)),
        decreases chars.len() - i,
    {
        assert(chars@.take(i + 1).drop_last() == chars@.take(i as int));
        assert(chars@.take(i + 1).last() == chars@[i as int]);
        insert_char_to_rope(editor, chars[i]);
        i += 1;
    }
    assert(chars@.take(i as int) == chars@);
}

/// Breaks the line at the cursor and puts the cursor at the start of the
/// new line.
pub fn break_line(editor: &mut Editor)
    requires
        old(editor)@.wf(),
    ensures
        final(editor)@ == old(editor)@.broken(),
        final(editor)@.wf(),
{
    let gy = editor.cursor.gy;
    let line = editor.line(gy);
    let (k, col) = leading_chars(&line, editor.cursor.gx);
    let start = editor.rope.line_to_char(gy);
    // The cursor's line is a line of the rope, whose number of lines is a
    // `usize`, so the line below has a number.
    let count = editor.rope.len_lines();
    assert(gy < count);
    editor.rope.insert_char(start + k, '\n');
    editor.settle(0, gy + 1);
    editor.stale = true;
}

/// Deletes to the left of the cursor: the character before it, or at the
/// start of a line the line break before it.
#[verifier::rlimit(50)]
pub fn delete_left(editor: &mut Editor)
    requires
        old(editor)@.wf(),
    ensures
        final(editor)@ == old(editor)@.erased(),
        final(editor)@.wf(),
{
    let gy = editor.cursor.gy;
    let y = editor.cursor.y;
    let line = editor.line(gy);
    let (k, col) = leading_chars(&line, editor.cursor.gx);
    let start = editor.rope.line_to_char(gy);
    if k > 0 {
        let width: usize = if line[k - 1] == '\t' {
            TAB_WIDTH
        } else {
            1
        };
        proof {
            assert(line@.take(k as int) == line@.take(k - 1).push(line@[k - 1]));
            lemma_expand_tabs_push(line@.take(k - 1), line@[k - 1]);
        }
        rope_remove(&mut editor.rope, start + k - 1, start + k);
        editor.settle(col - width, gy);
        if !editor.stale && y < editor.screen.max_h && editor.cursor.gy == gy {
            let shown = editor.line(gy);
            let row = padded_row(&shown, editor.screen.max_w);
            proof {
                lemma_row_in_grid(y as int, editor.screen.max_w as int, editor.screen.max_h as int);
            }
            replace_row(y, editor.screen.max_w, row.as_slice(), &mut editor.grid, &mut editor.queued);
        } else {
            editor.stale = true;
        }
    } else if editor.cursor.gx > 0 {
        editor.settle(0, gy);
    } else if gy > 0 {
        let above = editor.line(gy - 1);
        let above_start = editor.rope.line_to_char(gy - 1);
        let target = display_width(&above);
        rope_remove(&mut editor.rope, above_start + above.len(), start);
        editor.settle(target, gy - 1);
        editor.stale = true;
    }
}

/// Moves the cursor `n` times by one line in the direction `delta`.
pub fn move_lines(editor: &mut Editor, delta: i32, n: u16)
    requires
        old(editor)@.wf(),
        delta == 1 || delta == -1,
    ensures
        final(editor)@ == old(editor)@.moved_vertical_by(delta as int, n as nat),
        final(editor)@.wf(),
{
    let mut i: u16 = 0;
    while i < n
        invariant
            i <= n,
            delta == 1 || delta == -1,
            editor@.wf(),
            editor@ == old(editor)@.moved_vertical_by(delta as int, i as nat),
        decreases n - i,
    {
        editor.move_vertical(delta);
        i += 1;
    }
}

/// Moves the cursor `n` times by one column in the direction `delta`.
pub fn move_columns(editor: &mut Editor, delta: i32, n: u16)
    requires
        old(editor)@.wf(),
        delta == 1 || delta == -1,
    ensures
        final(editor)@ == old(editor)@.moved_horizontal_by(delta as int, n as nat),
        final(editor)@.wf(),
{
    let mut i: u16 = 0;
    while i < n
        invariant
            i <= n,
            delta == 1 || delta == -1,
            editor@.wf(),
            editor@ == old(editor)@.moved_horizontal_by(delta as int, i as nat),
        decreases n - i,
    {
        editor.move_horizontal(delta);
        i += 1;
    }
}

/// Leaves for Normal mode and drops the pending command line.
pub fn leave_command(editor: &mut Editor)
    requires
        old(editor)@.wf(),
    ensures
        final(editor)@ == old(editor)@.command_left(),
        final(editor)@.wf(),
{
    editor.on_mode_change(Mode::Normal);
    editor.command = String::new();
}

/// Enters Command mode with an empty command line and nothing left to
/// report.
pub fn begin_command(editor: &mut Editor)
    requires
        old(editor)@.wf(),
    ensures
        final(editor)@ == old(editor)@.command_begun(),
        final(editor)@.wf(),
{
    editor.on_mode_change(Mode::Command);
    editor.command = String::new();
    editor.output = String::new();
    editor.error = EditorError::NONE;
}

/// Drops the last character of the command line.
pub fn pop_command(editor: &mut Editor)
    requires
        old(editor)@.wf(),
    ensures
        final(editor)@ == old(editor)@.command_popped(),
        final(editor)@.wf(),
{
    let mut line = chars_of(editor.command.as_str());
    if line.len() > 0 {
        line.pop();
        editor.command = string_of(&line);
    }
}

/// Carries out `command`.
pub fn carry_out(editor: &mut Editor, command: Command)
    requires
        old(editor)@.wf(),
    ensures
        final(editor)@ == old(editor)@.carried_out(command),
        final(editor)@.wf(),
{
    match command {
        Command::Quit => {
            editor.is_running = false;
        },
        Command::Write => {
            if editor.file_path.is_some() {
                editor.saving = true;
                editor.error = EditorError::NONE;
            } else {
                editor.error = EditorError::InvalidCommand(editor.command.clone());
            }
        },
        Command::LineLength => {
            let e = end_of_line_without_new_line(editor);
            editor.output = string_of(&decimal_of(e));
        },
        Command::Height => {
            editor.output = string_of(&decimal_of(editor.screen.max_h));
        },
        Command::Line => {
            let line = editor.line(editor.cursor.gy);
            editor.output = string_of(&line);
        },
        Command::Unknown => {
            editor.error = EditorError::InvalidCommand(editor.command.clone());
        },
    }
}

/// Runs the command line, empties it and leaves for Normal mode.
pub fn run_command(editor: &mut Editor)
    requires
        old(editor)@.wf(),
    ensures
        final(editor)@ == old(editor)@.command_run(),
        final(editor)@.wf(),
{
    let line = chars_of(editor.command.as_str());
    let command = parse_command(&line);
    carry_out(editor, command);
    leave_command(editor);
}

/// Carries out the action `event` on `editor`.
pub fn apply(editor: &mut Editor, event: &EditorEvent)
    requires
        old(editor)@.wf(),
    ensures
        final(editor)@ == old(editor)@.applied(*event),
        final(editor)@.wf(),
{
    match event {
        EditorEvent::Cursor(direction) => match direction {
            Direction::Up(n) => move_lines(editor, -1, *n),
            Direction::Down(n) => move_lines(editor, 1, *n),
            Direction::Left(n) => move_columns(editor, -1, *n),
            Direction::Right(n) => move_columns(editor, 1, *n),
        },
        EditorEvent::Scroll(delta, cursor_direction) => editor.scroll(*delta, *cursor_direction),
        EditorEvent::ModeNormal => leave_command(editor),
        EditorEvent::ModeCommand => begin_command(editor),
        EditorEvent::ModeInsert => editor.on_mode_change(Mode::Insert),
        EditorEvent::Quit => {
            editor.is_running = false;
        },
        EditorEvent::Insert(c) => insert_char_to_rope(editor, *c),
        EditorEvent::Indent => {
            proof {
                reveal_strlit("    ");
                assert("    "@ =~= Seq::new(TAB_WIDTH as nat, |i: int| ' '));
            }
            insert_str_to_rope(editor, "    ")
        },
        EditorEvent::NewLine => break_line(editor),
        EditorEvent::Backspace => delete_left(editor),
        EditorEvent::CommandPush(c) => {
            push_char(&mut editor.command, *c);
        },
        EditorEvent::CommandPop => pop_command(editor),
        EditorEvent::CommandRun => run_command(editor),
    }
}

/// Looks `key` up in the table for the editor's mode and carries out the
/// action that it is bound to. Nothing happens where the key is not bound,
/// or where the editor's invariant does not hold.
pub fn handle_key(editor: &mut Editor, map: &Mapper, key: &KeyEvent) -> (handled: bool)
    ensures
        handled == (old(editor)@.wf() && map@.contains_key((old(editor)@.mode, *key))),
        handled ==> final(editor)@ == old(editor)@.applied(map@[(old(editor)@.mode, *key)]),
        handled ==> final(editor)@.wf(),
        !handled ==> final(editor)@ == old(editor)@,
{
    if !editor.is_consistent() {
        return false;
    }
    let mode = editor.mode;
    match map.get_mapping(&mode, key) {
        Some(event) => {
            apply(editor, event);
            true
        },
        None => false,
    }
}

impl EditorView {
    /// The editor after the key `key` was pressed: the action that `table`
    /// binds the key to in the editor's mode is carried out. A key without a
    /// binding changes nothing, and neither does any key while the editor's
    /// invariant does not hold.
    pub open spec fn pressed(self, table: Map<(Mode, KeyEvent), EditorEvent>, key: KeyEvent) -> EditorView {
        if self.wf() && table.contains_key((self.mode, key)) {
            self.applied(table[(self.mode, key)])
        } else {
            self
        }
    }

    /// Whether a terminal of `w` columns and `h` rows has room for the
    /// editor.
    pub open spec fn fits(self, w: u16, h: u16) -> bool {
        self.wf() && self.origin + h + 1 <= usize::MAX
    }

    /// The editor after the terminal event `event`: a key is looked up and
    /// its action carried out, a new terminal size resizes the text area, and
    /// the mouse changes nothing.
    pub open spec fn received(self, table: Map<(Mode, KeyEvent), EditorEvent>, event: Event) -> EditorView {
        match event {
            Event::Key(key) => self.pressed(table, key),
            Event::Resize(w, h) => if self.fits(w, h) {
                self.resized(
                    w as nat,
                    if h >= BAR_ROWS {
                        (h - BAR_ROWS) as nat
                    } else {
                        0
                    },
                )
            } else {
                self
            },
            Event::Mouse => self,
        }
    }
}

/// One turn of the editor's loop: takes the terminal event `event`, changes
/// the editor as the event asks, and gives the frame to send to the terminal,
/// where the editor's invariant holds afterwards.
#[verifier::rlimit(50)]
pub fn step(editor: &mut Editor, map: &Mapper, event: &Event) -> (frame: Option<Vec<Paint>>)
    ensures
        frame is Some == old(editor)@.received(map@, *event).wf(),
        frame matches Some(f) ==> {
            &&& final(editor)@ == old(editor)@.received(map@, *event).rendered()
            &&& final(editor)@.wf()
            &&& paint_views(f@) == old(editor)@.received(map@, *event).refreshed().frame()
        },
        frame is None ==> final(editor)@ == old(editor)@,
{
    match event {
        Event::Key(key) => {
            handle_key(editor, map, key);
        },
        Event::Resize(w, h) => {
            let screen = screen_size(*w, *h);
            if editor.is_consistent() && editor.screen.b <= usize::MAX - 1 - (*h as usize) {
                assert(screen.max_w * screen.max_h <= usize::MAX) by (nonlinear_arith)
                    requires
                        screen.max_w <= 0xffff,
                        screen.max_h <= 0xffff,
                ;
                editor.resize(screen.max_w, screen.max_h);
            }
        },
        Event::Mouse => {},
    }
    draw(editor)
}

/// Moving the cursor changes neither the mode nor whether the editor runs.
pub proof fn lemma_moves_keep_mode(v: EditorView, delta: int, n: nat)
    ensures
        v.moved_vertical_by(delta, n).mode == v.mode,
        v.moved_vertical_by(delta, n).running == v.running,
        v.moved_horizontal_by(delta, n).mode == v.mode,
        v.moved_horizontal_by(delta, n).running == v.running,
    decreases n,
{
    if n > 0 {
        lemma_moves_keep_mode(v, delta, (n - 1) as nat);
    }
}

/// Typing changes neither the mode nor whether the editor runs.
pub proof fn lemma_typing_keeps_mode(v: EditorView, chars: Seq<char>)
    ensures
        v.typed_all(chars).mode == v.mode,
        v.typed_all(chars).running == v.running,
    decreases chars.len(),
{
    if chars.len() > 0 {
        lemma_typing_keeps_mode(v, chars.drop_last());
    }
}

/// The transitions between the modes. Only four actions change the mode:
/// `ModeInsert` leads to Insert mode, `ModeCommand` to Command mode,
/// `ModeNormal` and `CommandRun` to Normal mode. Only two actions stop the
/// editor: `Quit`, and `CommandRun` on the command `q`. No action starts a
/// stopped editor again.
pub proof fn lemma_mode_transitions(v: EditorView, event: EditorEvent)
    ensures
        v.applied(event).mode == match event {
            EditorEvent::ModeInsert => Mode::Insert,
            EditorEvent::ModeCommand => Mode::Command,
            EditorEvent::ModeNormal => Mode::Normal,
            EditorEvent::CommandRun => Mode::Normal,
            _ => v.mode,
        },
        v.applied(event).running == match event {
            EditorEvent::Quit => false,
            EditorEvent::CommandRun => v.running && command_of(v.command) != Command::Quit,
            _ => v.running,
        },
{
    match event {
        EditorEvent::Cursor(direction) => match direction {
            Direction::Up(n) => lemma_moves_keep_mode(v, -1, n as nat),
            Direction::Down(n) => lemma_moves_keep_mode(v, 1, n as nat),
            Direction::Left(n) => lemma_moves_keep_mode(v, -1, n as nat),
            Direction::Right(n) => lemma_moves_keep_mode(v, 1, n as nat),
        },
        EditorEvent::Indent => lemma_typing_keeps_mode(v, Seq::new(TAB_WIDTH as nat, |i: int| ' ')),
        _ => {},
    }
}

} // verus!
