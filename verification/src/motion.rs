//! The cursor and viewport model. A `Place` holds the cursor's column and
//! row on screen and in the document, the column that vertical motion aims
//! for, and the first document line shown. Motions are functions from a
//! place to a place over the lengths of the document's lines.

use crate::editor::Mode;
use crate::support::{clamp_int, min_int};
use vstd::prelude::*;

verus! {

/// Where the cursor and the viewport stand.
pub struct Place {
    /// First document line shown.
    pub top: int,
    /// Cursor row below the first line shown.
    pub y: int,
    /// Cursor line in the document.
    pub gy: int,
    /// Cursor column on screen.
    pub x: int,
    /// Cursor column in the document.
    pub gx: int,
    /// Sticky column: the column last chosen by a horizontal move, which
    /// vertical moves return to where the line is long enough.
    pub max_x: int,
}

/// Columns of a line on which the cursor cannot rest: none in Insert mode,
/// where it may stand behind the last character, one in the other modes.
pub open spec fn clamp_offset(mode: Mode) -> int {
    if mode == Mode::Insert {
        0
    } else {
        1
    }
}

/// Last column on which the cursor may rest in a line of `len` columns.
pub open spec fn end_of_line(len: nat, mode: Mode) -> int {
    if len >= clamp_offset(mode) {
        len - clamp_offset(mode)
    } else {
        0
    }
}

/// `end_of_line` of line `y` of a document whose lines have the lengths
/// `lens`.
pub open spec fn eol(lens: Seq<nat>, y: int, mode: Mode) -> int {
    end_of_line(lens[y], mode)
}

/// Last screen row of a viewport of `height` rows. A viewport without rows
/// keeps the cursor on row 0.
pub open spec fn last_row(height: nat) -> int {
    if height == 0 {
        0
    } else {
        height - 1
    }
}

/// Largest first line that a viewport of `height` rows takes on a document
/// of `count` lines: `max(0, count - height)`, and `count - 1` for a viewport
/// without rows.
pub open spec fn top_limit(count: nat, height: nat) -> int {
    if count > last_row(height) + 1 {
        count - (last_row(height) + 1)
    } else {
        0
    }
}

/// The cursor is on a line of the document, that line is shown, and the
/// document line is the first line shown plus the screen row.
pub open spec fn anchored(p: Place, lens: Seq<nat>, height: nat) -> bool {
    &&& 0 <= p.top <= top_limit(lens.len(), height)
    &&& 0 <= p.y <= last_row(height)
    &&& p.gy == p.top + p.y
    &&& p.gy < lens.len()
}

/// The invariant of the model: the place is anchored and the column is one
/// on which the cursor may rest in the current mode.
pub open spec fn settled(p: Place, lens: Seq<nat>, height: nat, mode: Mode) -> bool {
    &&& anchored(p, lens, height)
    &&& 0 <= p.gx <= eol(lens, p.gy, mode)
    &&& p.x == p.gx
    &&& 0 <= p.max_x
}

/// Shifts the first line shown by `delta` lines, kept within
/// `0 ..= top_limit`, and the cursor's screen row by `cursor_delta` rows,
/// kept on the viewport and on the document. The document line follows as
/// first line plus row, the column as after a vertical move. With
/// `cursor_delta == 0` the cursor keeps its row while the content moves; with
/// `cursor_delta == -delta` it moves with the content.
pub open spec fn scroll(
    p: Place,
    delta: int,
    cursor_delta: int,
    lens: Seq<nat>,
    height: nat,
    mode: Mode,
) -> Place {
    let top = clamp_int(p.top + delta, 0, top_limit(lens.len(), height));
    let y = clamp_int(
        p.y + cursor_delta,
        0,
        min_int(last_row(height), lens.len() - 1 - top),
    );
    let gx = min_int(p.max_x, eol(lens, top + y, mode));
    Place { top, y, gy: top + y, x: gx, gx, max_x: p.max_x }
}

/// One line up (`delta == -1`) or down (`delta == 1`). From the first line
/// up and from the last line down nothing changes. Otherwise the cursor
/// changes its row where the viewport has one in that direction, and else the
/// viewport scrolls by one line while the cursor keeps its row. The column
/// becomes the sticky column, or the end of the new line where that is
/// shorter; the sticky column stays.
pub open spec fn move_vertical(
    p: Place,
    delta: int,
    lens: Seq<nat>,
    height: nat,
    mode: Mode,
) -> Place {
    if p.gy + delta < 0 || p.gy + delta >= lens.len() {
        p
    } else if 0 <= p.y + delta <= last_row(height) {
        let gx = min_int(p.max_x, eol(lens, p.gy + delta, mode));
        Place { top: p.top, y: p.y + delta, gy: p.gy + delta, x: gx, gx, max_x: p.max_x }
    } else {
        scroll(p, delta, 0, lens, height, mode)
    }
}

/// One column left (`delta == -1`) or right (`delta == 1`), kept within
/// `0 ..= eol`. The sticky column becomes the new column.
pub open spec fn move_horizontal(p: Place, delta: int, lens: Seq<nat>, mode: Mode) -> Place {
    let gx = clamp_int(p.gx + delta, 0, eol(lens, p.gy, mode));
    Place { x: gx, gx, max_x: gx, ..p }
}

/// The place after the mode became `new_mode`: a column behind what the new
/// mode allows moves back to the end of the line.
pub open spec fn on_mode_change(p: Place, new_mode: Mode, lens: Seq<nat>) -> Place {
    let gx = min_int(p.gx, eol(lens, p.gy, new_mode));
    Place { x: gx, gx, ..p }
}

/// The nearest settled place to a cursor that an edit put at line `p.gy`,
/// column `p.gx`: the line is kept on the document, the viewport moves just
/// far enough to show it, the column is kept on the line and becomes the
/// sticky column.
pub open spec fn settle(p: Place, lens: Seq<nat>, height: nat, mode: Mode) -> Place {
    let gy = clamp_int(p.gy, 0, lens.len() - 1);
    let shown = if gy < p.top {
        gy
    } else if gy > p.top + last_row(height) {
        gy - last_row(height)
    } else {
        p.top
    };
    let top = clamp_int(shown, 0, top_limit(lens.len(), height));
    let gx = clamp_int(p.gx, 0, eol(lens, gy, mode));
    Place { top, y: gy - top, gy, x: gx, gx, max_x: gx }
}

/// `n` vertical moves in the direction `delta`, one after the other.
pub open spec fn move_vertical_by(
    p: Place,
    delta: int,
    n: nat,
    lens: Seq<nat>,
    height: nat,
    mode: Mode,
) -> Place
    decreases n,
{
    if n == 0 {
        p
    } else {
        move_vertical(
            move_vertical_by(p, delta, (n - 1) as nat, lens, height, mode),
            delta,
            lens,
            height,
            mode,
        )
    }
}

/// `n` horizontal moves in the direction `delta`, one after the other.
pub open spec fn move_horizontal_by(
    p: Place,
    delta: int,
    n: nat,
    lens: Seq<nat>,
    mode: Mode,
) -> Place
    decreases n,
{
    if n == 0 {
        p
    } else {
        move_horizontal(move_horizontal_by(p, delta, (n - 1) as nat, lens, mode), delta, lens, mode)
    }
}

/// The vertical moves `deltas`, one after the other.
pub open spec fn after_vertical_moves(
    p: Place,
    deltas: Seq<int>,
    lens: Seq<nat>,
    height: nat,
    mode: Mode,
) -> Place
    decreases deltas.len(),
{
    if deltas.len() == 0 {
        p
    } else {
        move_vertical(
            after_vertical_moves(p, deltas.drop_last(), lens, height, mode),
            deltas.last(),
            lens,
            height,
            mode,
        )
    }
}

/// Whether each of `deltas` is one line up or one line down.
pub open spec fn single_steps(deltas: Seq<int>) -> bool {
    forall|i: int| 0 <= i < deltas.len() ==> deltas[i] == 1 || deltas[i] == -1
}

/// A vertical move keeps the model's invariant: afterwards the document
/// line is still the first line shown plus the screen row, and the column is
/// on the line.
pub proof fn lemma_move_vertical_settled(
    p: Place,
    delta: int,
    lens: Seq<nat>,
    height: nat,
    mode: Mode,
)
    requires
        settled(p, lens, height, mode),
        delta == 1 || delta == -1,
    ensures
        settled(move_vertical(p, delta, lens, height, mode), lens, height, mode),
        move_vertical(p, delta, lens, height, mode).gy == move_vertical(
            p,
            delta,
            lens,
            height,
            mode,
        ).top + move_vertical(p, delta, lens, height, mode).y,
{
}

/// Whatever vertical moves are made, after each of them the document line
/// is the first line shown plus the screen row, and the cursor is on the
/// document.
pub proof fn lemma_vertical_moves_anchored(
    p: Place,
    deltas: Seq<int>,
    lens: Seq<nat>,
    height: nat,
    mode: Mode,
)
    requires
        settled(p, lens, height, mode),
        single_steps(deltas),
    ensures
        forall|k: int|
            0 <= k <= deltas.len() ==> {
                let q = #[trigger] after_vertical_moves(p, deltas.take(k), lens, height, mode);
                &&& settled(q, lens, height, mode)
                &&& q.gy == q.top + q.y
                &&& 0 <= q.gy < lens.len()
            },
{
    assert forall|k: int| 0 <= k <= deltas.len() implies {
        let q = #[trigger] after_vertical_moves(p, deltas.take(k), lens, height, mode);
        &&& settled(q, lens, height, mode)
        &&& q.gy == q.top + q.y
        &&& 0 <= q.gy < lens.len()
    } by {
        lemma_vertical_moves_settled(p, deltas.take(k), lens, height, mode);
    }
}

/// The invariant holds after a sequence of vertical moves.
pub proof fn lemma_vertical_moves_settled(
    p: Place,
    deltas: Seq<int>,
    lens: Seq<nat>,
    height: nat,
    mode: Mode,
)
    requires
        settled(p, lens, height, mode),
        single_steps(deltas),
    ensures
        settled(after_vertical_moves(p, deltas, lens, height, mode), lens, height, mode),
        after_vertical_moves(p, deltas, lens, height, mode).max_x == p.max_x,
    decreases deltas.len(),
{
    if deltas.len() > 0 {
        lemma_vertical_moves_settled(p, deltas.drop_last(), lens, height, mode);
        lemma_move_vertical_settled(
            after_vertical_moves(p, deltas.drop_last(), lens, height, mode),
            deltas.last(),
            lens,
            height,
            mode,
        );
    }
}

/// A vertical move never changes the sticky column, and a move that reaches
/// another line puts the cursor on the sticky column, or on the end of that
/// line where the line is shorter.
pub proof fn lemma_move_vertical_column(
    p: Place,
    delta: int,
    lens: Seq<nat>,
    height: nat,
    mode: Mode,
)
    requires
        settled(p, lens, height, mode),
        delta == 1 || delta == -1,
    ensures
        move_vertical(p, delta, lens, height, mode).max_x == p.max_x,
        0 <= p.gy + delta < lens.len() ==> {
            let q = move_vertical(p, delta, lens, height, mode);
            &&& q.gy == p.gy + delta
            &&& q.gx == min_int(p.max_x, eol(lens, q.gy, mode))
        },
{
}

/// Sticky column, there and back: where the cursor stands on the column
/// that a vertical move gives it, one line down and one line up again bring
/// it back to the same line and the same column, however short the line in
/// between is.
pub proof fn lemma_down_up_returns(p: Place, lens: Seq<nat>, height: nat, mode: Mode)
    requires
        settled(p, lens, height, mode),
        p.gx == min_int(p.max_x, eol(lens, p.gy, mode)),
        p.gy + 1 < lens.len(),
    ensures
        ({
            let down = move_vertical(p, 1, lens, height, mode);
            let back = move_vertical(down, -1, lens, height, mode);
            &&& down.gy == p.gy + 1
            &&& down.gx == min_int(p.max_x, eol(lens, p.gy + 1, mode))
            &&& back.gy == p.gy
            &&& back.gx == p.gx
            &&& back.max_x == p.max_x
        }),
{
}

/// Sticky column, restored: after any vertical moves that end on another
/// line, the cursor stands on the sticky column as soon as that line is long
/// enough for it, whatever the lines on the way were.
pub proof fn lemma_sticky_restored(
    p: Place,
    deltas: Seq<int>,
    lens: Seq<nat>,
    height: nat,
    mode: Mode,
)
    requires
        settled(p, lens, height, mode),
        p.gx == min_int(p.max_x, eol(lens, p.gy, mode)),
        single_steps(deltas),
    ensures
        ({
            let q = after_vertical_moves(p, deltas, lens, height, mode);
            &&& q.max_x == p.max_x
            &&& q.gx == min_int(p.max_x, eol(lens, q.gy, mode))
            &&& eol(lens, q.gy, mode) >= p.max_x ==> q.gx == p.max_x
        }),
    decreases deltas.len(),
{
    if deltas.len() > 0 {
        let before = after_vertical_moves(p, deltas.drop_last(), lens, height, mode);
        lemma_sticky_restored(p, deltas.drop_last(), lens, height, mode);
        lemma_vertical_moves_settled(p, deltas.drop_last(), lens, height, mode);
        lemma_move_vertical_column(before, deltas.last(), lens, height, mode);
    }
}

/// A horizontal move keeps the invariant and makes the new column the sticky
/// column.
pub proof fn lemma_move_horizontal_anchors(p: Place, delta: int, lens: Seq<nat>, height: nat, mode: Mode)
    requires
        settled(p, lens, height, mode),
        delta == 1 || delta == -1,
    ensures
        settled(move_horizontal(p, delta, lens, mode), lens, height, mode),
        move_horizontal(p, delta, lens, mode).max_x == move_horizontal(p, delta, lens, mode).gx,
        move_horizontal(p, delta, lens, mode).gy == p.gy,
        move_horizontal(p, delta, lens, mode).top == p.top,
{
}

/// End-of-line clamping by mode: in Insert mode the cursor may rest on the
/// column behind the last character, `len`; in the other modes the last
/// column is `len - 1`, and 0 on an empty line.
pub proof fn lemma_end_of_line(len: nat, mode: Mode)
    ensures
        mode == Mode::Insert ==> end_of_line(len, mode) == len,
        mode != Mode::Insert && len > 0 ==> end_of_line(len, mode) == len - 1,
        mode != Mode::Insert && len == 0 ==> end_of_line(len, mode) == 0,
{
}

/// A mode change keeps the invariant for the new mode: on leaving Insert
/// mode a cursor behind the last character moves back onto it, and nothing
/// else changes.
pub proof fn lemma_mode_change_settled(
    p: Place,
    mode: Mode,
    new_mode: Mode,
    lens: Seq<nat>,
    height: nat,
)
    requires
        settled(p, lens, height, mode),
    ensures
        settled(on_mode_change(p, new_mode, lens), lens, height, new_mode),
        on_mode_change(p, new_mode, lens).gx <= p.gx,
        p.gx <= eol(lens, p.gy, new_mode) ==> on_mode_change(p, new_mode, lens) == p,
        on_mode_change(p, new_mode, lens).max_x == p.max_x,
        on_mode_change(p, new_mode, lens).gy == p.gy,
        on_mode_change(p, new_mode, lens).top == p.top,
{
}

/// Scrolling gives an anchored place from any place whose sticky column is
/// not negative, and never changes the sticky column.
pub proof fn lemma_scroll_settled(
    p: Place,
    delta: int,
    cursor_delta: int,
    lens: Seq<nat>,
    height: nat,
    mode: Mode,
)
    requires
        lens.len() >= 1,
        0 <= p.max_x,
    ensures
        settled(scroll(p, delta, cursor_delta, lens, height, mode), lens, height, mode),
        scroll(p, delta, cursor_delta, lens, height, mode).max_x == p.max_x,
{
}

/// Settling gives a settled place from any place, and changes nothing but
/// the sticky column where the place is settled already.
pub proof fn lemma_settle_settled(p: Place, lens: Seq<nat>, height: nat, mode: Mode)
    requires
        lens.len() >= 1,
        0 <= p.top,
    ensures
        settled(settle(p, lens, height, mode), lens, height, mode),
        settled(p, lens, height, mode) ==> settle(p, lens, height, mode) == (Place {
            max_x: p.gx,
            ..p
        }),
{
}

} // verus!
