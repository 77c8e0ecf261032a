//! The screen buffer and its dirty rows. The buffer is a flat grid of
//! character cells, row after row; the dirty rows are the rows that changed
//! since they were last handed to the terminal, in the order in which they
//! first changed.

use crate::text::{chars_of, fit, fitted, lines_of, padded_row, row_of, split_lines};
use crate::support::min_int;
use vstd::prelude::*;

verus! {

/// A row of `w` spaces.
pub open spec fn blank(w: nat) -> Seq<char> {
    Seq::new(w, |i: int| ' ')
}

/// `dst` with the cells from `idx` on replaced by `src`, as far as `dst`
/// reaches.
pub open spec fn overlay(dst: Seq<char>, idx: int, src: Seq<char>) -> Seq<char> {
    Seq::new(
        dst.len(),
        |i: int|
            if idx <= i < idx + src.len() {
                src[i - idx]
            } else {
                dst[i]
            },
    )
}

/// Row `row` of a grid of width `w`.
pub open spec fn grid_row(grid: Seq<char>, w: nat, row: int) -> Seq<char> {
    grid.subrange(row * w, row * w + w)
}

/// The dirty rows with `row` among them: appended where it is not pending
/// yet.
pub open spec fn marked(queued: Seq<usize>, row: usize) -> Seq<usize> {
    if queued.contains(row) {
        queued
    } else {
        queued.push(row)
    }
}

/// The dirty rows with the rows `first .. end` among them, lowest first.
pub open spec fn marked_range(queued: Seq<usize>, first: int, end: int) -> Seq<usize>
    decreases end - first,
{
    if end <= first {
        queued
    } else {
        marked(marked_range(queued, first, end - 1), (end - 1) as usize)
    }
}

/// What draining does to the dirty rows: all of them are handed out, in
/// order, and none stays pending.
pub open spec fn drained(queued: Seq<usize>) -> (Seq<usize>, Seq<usize>) {
    (queued, Seq::empty())
}

/// Row `r` of a screen that shows `lines`: the line cut or filled to `w`
/// columns, and a blank row below the last line.
pub open spec fn screen_row(lines: Seq<Seq<char>>, r: int, w: nat) -> Seq<char> {
    if 0 <= r < lines.len() {
        row_of(lines[r], w)
    } else {
        blank(w)
    }
}

/// The grid of `h` rows of `w` columns that shows `lines` from its first
/// row on. Lines beyond the last row are not shown.
pub open spec fn grid_of(lines: Seq<Seq<char>>, w: nat, h: nat) -> Seq<char>
    decreases h,
{
    if h == 0 {
        Seq::empty()
    } else {
        grid_of(lines, w, (h - 1) as nat) + screen_row(lines, h - 1, w)
    }
}

/// The row that `insert_char_in_row` leaves: `ch` put before column `col`,
/// the cells from there on shifted right, the last one dropped. A column
/// outside the row changes nothing.
pub open spec fn row_with_char(row: Seq<char>, col: int, ch: char) -> Seq<char> {
    if 0 <= col < row.len() {
        fit(row.insert(col, ch), row.len())
    } else {
        row
    }
}

/// The grid and the dirty rows after `lines` replaced the rows from
/// `first_row` on, one line per row.
pub open spec fn rows_replaced(
    grid: Seq<char>,
    queued: Seq<usize>,
    w: nat,
    first_row: int,
    lines: Seq<Seq<char>>,
) -> (Seq<char>, Seq<usize>)
    decreases lines.len(),
{
    if lines.len() == 0 {
        (grid, queued)
    } else {
        let before = rows_replaced(grid, queued, w, first_row, lines.drop_last());
        let row = first_row + lines.len() - 1;
        (overlay(before.0, row * w, row_of(lines.last(), w)), marked(before.1, row as usize))
    }
}

/// The grid and the dirty rows after each of `lines` replaced the row that
/// it names, in the order given.
pub open spec fn rows_set(
    grid: Seq<char>,
    queued: Seq<usize>,
    w: nat,
    lines: Seq<(usize, Seq<char>)>,
) -> (Seq<char>, Seq<usize>)
    decreases lines.len(),
{
    if lines.len() == 0 {
        (grid, queued)
    } else {
        let before = rows_set(grid, queued, w, lines.drop_last());
        (
            overlay(before.0, lines.last().0 * w, row_of(lines.last().1, w)),
            marked(before.1, lines.last().0),
        )
    }
}

/// One row more or less is `w` cells more or less.
pub proof fn lemma_mul_step(a: int, w: int)
    ensures
        (a + 1) * w == a * w + w,
        (a - 1) * w == a * w - w,
{
    assert((a + 1) * w == a * w + w) by (nonlinear_arith);
    assert((a - 1) * w == a * w - w) by (nonlinear_arith);
}

/// A row that is not below another does not start behind it.
pub proof fn lemma_mul_le(a: int, b: int, w: int)
    requires
        a <= b,
        0 <= w,
    ensures
        a * w <= b * w,
{
    assert(a * w <= b * w) by (nonlinear_arith)
        requires
            a <= b,
            0 <= w,
    ;
}

/// A grid of `h` rows of `w` columns has `w * h` cells.
pub proof fn lemma_grid_of_len(lines: Seq<Seq<char>>, w: nat, h: nat)
    ensures
        grid_of(lines, w, h).len() == h * w,
    decreases h,
{
    if h > 0 {
        lemma_grid_of_len(lines, w, (h - 1) as nat);
        lemma_mul_step(h - 1, w as int);
    } else {
        assert(h * w == 0) by (nonlinear_arith)
            requires
                h == 0,
        ;
    }
}

/// Row `r` of the grid that shows `lines` is the screen row of line `r`.
pub proof fn lemma_grid_of_row(lines: Seq<Seq<char>>, w: nat, h: nat, r: int)
    requires
        0 <= r < h,
    ensures
        grid_row(grid_of(lines, w, h), w, r) == screen_row(lines, r, w),
    decreases h,
{
    let g = grid_of(lines, w, h);
    let before = grid_of(lines, w, (h - 1) as nat);
    lemma_grid_of_len(lines, w, (h - 1) as nat);
    lemma_grid_of_len(lines, w, h);
    lemma_mul_step(h - 1, w as int);
    if r == h - 1 {
        assert(g.subrange(r * w, r * w + w) == screen_row(lines, r, w));
    } else {
        lemma_grid_of_row(lines, w, (h - 1) as nat, r);
        lemma_mul_step(r, w as int);
        lemma_mul_le(r + 1, h - 1, w as int);
        lemma_mul_le(0, r, w as int);
        assert(g.subrange(r * w, r * w + w) == before.subrange(r * w, r * w + w));
    }
}

/// Draining twice: after a write the first drain hands out at least one
/// row, and a second drain with no write in between hands out none.
pub proof fn lemma_drain_twice(queued: Seq<usize>, row: usize)
    ensures
        drained(marked(queued, row)).0.len() > 0,
        drained(marked(queued, row)).0.contains(row),
        drained(drained(marked(queued, row)).1).0.len() == 0,
        drained(drained(queued).1).0.len() == 0,
{
    let m = marked(queued, row);
    if !queued.contains(row) {
        assert(m[m.len() - 1] == row);
    }
}

/// `n` cells that each hold a space.
pub fn blank_cells(n: usize) -> (cells: Vec<char>)
    ensures
        cells@ == blank(n as nat),
{
    let mut cells: Vec<char> = Vec::new();
    let mut i: usize = 0;
    while i < n
        invariant
            i <= n,
            cells@ == blank(i as nat),
        decreases n - i,
    {
        cells.push(' ');
        i += 1;
    }
    cells
}

/// Adds `row` to the dirty rows unless it is pending already.
pub fn mark(queued: &mut Vec<usize>, row: usize)
    ensures
        final(queued)@ == marked(old(queued)@, row),
{
    let mut i: usize = 0;
    while i < queued.len()
        invariant
            i <= queued.len(),
            *queued == *old(queued),
            forall|j: int| 0 <= j < i ==> queued@[j] != row,
        decreases queued.len() - i,
    {
        if queued[i] == row {
            return ;
        }
        i += 1;
    }
    queued.push(row);
}

/// Hands out the dirty rows in order and leaves none pending.
pub fn drain_dirty(queued: &mut Vec<usize>) -> (rows: Vec<usize>)
    ensures
        (rows@, final(queued)@) == drained(old(queued)@),
{
    let mut rows: Vec<usize> = Vec::new();
    std::mem::swap(queued, &mut rows);
    rows
}

/// Copies `src` into `dst` from cell `idx` on, as far as `dst` reaches.
fn copy_cells(dst: &mut Vec<char>, idx: usize, src: &[char])
    requires
        idx <= old(dst).len(),
    ensures
        final(dst)@ == overlay(old(dst)@, idx as int, src@),
{
    let room: usize = dst.len() - idx;
    let n: usize = if src.len() < room {
        src.len()
    } else {
        room
    };
    let mut i: usize = 0;
    while i < n
        invariant
            i <= n,
            idx + n <= dst.len(),
            n <= src.len(),
            dst.len() == old(dst).len(),
            dst@ == overlay(old(dst)@, idx as int, src@.take(i as int)),
        decreases n - i,
    {
        dst.set(idx + i, src[i]);
        i += 1;
    }
    assert(dst@ == overlay(old(dst)@, idx as int, src@));
}

/// Overwrites row `row_index` of the grid with `padded_text`, which has
/// exactly `w` characters, and marks the row dirty.
pub fn replace_row(
    row_index: usize,
    w: usize,
    padded_text: &[char],
    dst: &mut Vec<char>,
    queued: &mut Vec<usize>,
)
    requires
        padded_text@.len() == w,
        row_index * w + w <= old(dst).len(),
    ensures
        final(dst)@ == overlay(old(dst)@, row_index * w, padded_text@),
        final(dst).len() == old(dst).len(),
        grid_row(final(dst)@, w as nat, row_index as int) == padded_text@,
        final(queued)@ == marked(old(queued)@, row_index),
{
    proof {
        lemma_mul_le(0, row_index as int, w as int);
    }
    let start: usize = row_index * w;
    copy_cells(dst, start, padded_text);
    mark(queued, row_index);
    assert(grid_row(dst@, w as nat, row_index as int) == padded_text@);
}

/// Puts `ch` before column `col_index` of row `row_index`: the cells from
/// that column on move one to the right and the last one leaves the row. The
/// row is marked dirty.
pub fn insert_char_in_row(
    row_index: usize,
    col_index: usize,
    ch: char,
    w: usize,
    dst: &mut Vec<char>,
    queued: &mut Vec<usize>,
)
    requires
        row_index * w + w <= old(dst).len(),
    ensures
        final(dst)@ == overlay(
            old(dst)@,
            row_index * w,
            row_with_char(grid_row(old(dst)@, w as nat, row_index as int), col_index as int, ch),
        ),
        final(dst).len() == old(dst).len(),
        final(queued)@ == marked(old(queued)@, row_index),
{
    proof {
        lemma_mul_le(0, row_index as int, w as int);
    }
    let start: usize = row_index * w;
    let ghost row = grid_row(dst@, w as nat, row_index as int);
    let mut text: Vec<char> = Vec::new();
    let mut i: usize = 0;
    while i < w
        invariant
            i <= w,
            start == row_index * w,
            start + w <= dst.len(),
            row == grid_row(dst@, w as nat, row_index as int),
            text@ == row_with_char(row, col_index as int, ch).take(i as int),
        decreases w - i,
    {
        let c = if i < col_index || col_index >= w {
            dst[start + i]
        } else if i == col_index {
            ch
        } else {
            dst[start + i - 1]
        };
        text.push(c);
        assert(text@ == row_with_char(row, col_index as int, ch).take(i + 1));
        i += 1;
    }
    assert(text@ == row_with_char(row, col_index as int, ch));
    replace_row(row_index, w, text.as_slice(), dst, queued);
}

/// The grid of `h` rows of `w` columns that shows the lines of `string`:
/// each line with its tabs expanded and cut or filled to `w` columns, blank
/// rows below the last line.
pub fn string_to_vec(w: usize, h: usize, string: &str) -> (v: Vec<char>)
    requires
        w * h <= usize::MAX,
    ensures
        v@ == grid_of(split_lines(string@), w as nat, h as nat),
        v.len() == w * h,
{
    let text = chars_of(string);
    let lines = lines_of(&text);
    let ghost rows = split_lines(string@);
    let mut v: Vec<char> = Vec::new();
    let mut r: usize = 0;
    while r < h
        invariant
            r <= h,
            w * h <= usize::MAX,
            rows == split_lines(text@),
            lines.len() == rows.len(),
            forall|i: int| 0 <= i < lines.len() ==> (#[trigger] lines[i])@ == rows[i],
            v@ == grid_of(rows, w as nat, r as nat),
        decreases h - r,
    {
        let row = if r < lines.len() {
            padded_row(&lines[r], w)
        } else {
            blank_cells(w)
        };
        assert(row@ == screen_row(rows, r as int, w as nat));
        let ghost before = v@;
        let mut i: usize = 0;
        while i < w
            invariant
                i <= w,
                row.len() == w,
                v@ == before + row@.take(i as int),
            decreases w - i,
        {
            v.push(row[i]);
            i += 1;
        }
        assert(row@.take(w as int) == row@);
        r += 1;
    }
    proof {
        lemma_grid_of_len(rows, w as nat, h as nat);
        assert(h * w == w * h) by (nonlinear_arith);
    }
    v
}

/// Copies `src` into the grid from cell `idx` on, as far as the grid
/// reaches, and marks each row dirty that holds a copied cell.
pub fn replace_from(
    idx: usize,
    w: usize,
    dst: &mut Vec<char>,
    src: &[char],
    queued: &mut Vec<usize>,
)
    requires
        idx <= old(dst).len(),
    ensures
        final(dst)@ == overlay(old(dst)@, idx as int, src@),
        final(dst).len() == old(dst).len(),
        final(queued)@ == if w == 0 || src@.len() == 0 || idx == old(dst).len() {
            old(queued)@
        } else {
            marked_range(
                old(queued)@,
                idx as int / w as int,
                (min_int(old(dst).len() as int, idx + src@.len()) - 1) / w as int + 1,
            )
        },
{
    let room: usize = dst.len() - idx;
    let n: usize = if src.len() < room {
        src.len()
    } else {
        room
    };
    copy_cells(dst, idx, src);
    if w == 0 || n == 0 {
        return ;
    }
    let first: usize = idx / w;
    let end: usize = (idx + n - 1) / w + 1;
    let mut r: usize = first;
    assert(first <= end - 1) by {
        vstd::arithmetic::div_mod::lemma_div_is_ordered(idx as int, idx + n - 1, w as int);
    }
    while r < end
        invariant
            first <= r <= end,
            queued@ == marked_range(old(queued)@, first as int, r as int),
        decreases end - r,
    {
        mark(queued, r);
        r += 1;
    }
}

/// Replaces the row that holds cell `idx` by `line`, tabs expanded and cut
/// to `w - 1` columns so that the last column stays free, and marks the row
/// dirty.
pub fn _insert_at(idx: usize, w: usize, line: &str, dst: &mut Vec<char>, queued: &mut Vec<usize>)
    requires
        w > 0,
        (idx / w) * w + w <= old(dst).len(),
    ensures
        final(dst)@ == overlay(
            old(dst)@,
            (idx / w) * w,
            fit(row_of(line@, (w - 1) as nat), w as nat),
        ),
        final(dst).len() == old(dst).len(),
        final(queued)@ == marked(old(queued)@, idx / w),
{
    let text = chars_of(line);
    let cut = padded_row(&text, w - 1);
    let src = fitted(&cut, w);
    replace_row(idx / w, w, src.as_slice(), dst, queued);
}

/// Shows `text` on the whole grid of `h` rows of `w` columns, one line per
/// row from the first row on, and marks the rows dirty.
pub fn screen_update(w: usize, h: usize, text: &str, dst: &mut Vec<char>, queued: &mut Vec<usize>)
    requires
        w * h <= usize::MAX,
    ensures
        final(dst)@ == overlay(old(dst)@, 0, grid_of(split_lines(text@), w as nat, h as nat)),
        final(dst).len() == old(dst).len(),
        old(dst).len() == w * h ==> final(dst)@ == grid_of(
            split_lines(text@),
            w as nat,
            h as nat,
        ),
        old(dst).len() == w * h ==> final(queued)@ == if w == 0 {
            old(queued)@
        } else {
            marked_range(old(queued)@, 0, h as int)
        },
        final(queued)@ == if w * h == 0 || old(dst).len() == 0 {
            old(queued)@
        } else {
            marked_range(
                old(queued)@,
                0,
                (min_int(old(dst).len() as int, w * h) - 1) / w as int + 1,
            )
        },
{
    let src = string_to_vec(w, h, text);
    replace_from(0, w, dst, src.as_slice(), queued);
    proof {
        if old(dst).len() == w * h {
            assert(dst@ == src@);
            if w > 0 && h > 0 {
                assert(w * h >= 1) by (nonlinear_arith)
                    requires
                        w > 0,
                        h > 0,
                ;
                assert((w * h - 1) / w as int + 1 == h) by (nonlinear_arith)
                    requires
                        w > 0,
                        h > 0,
                ;
                assert(0int / w as int == 0);
            }
        }
    }
}

/// Shows `text` on row `line_num` of a grid of width `w`: tabs expanded,
/// cut or filled to `w` columns. The row is marked dirty.
pub fn screen_update_line(
    line_num: usize,
    w: usize,
    text: &str,
    dst: &mut Vec<char>,
    queued: &mut Vec<usize>,
)
    requires
        line_num * w + w <= old(dst).len(),
    ensures
        final(dst)@ == overlay(old(dst)@, line_num * w, row_of(text@, w as nat)),
        final(dst).len() == old(dst).len(),
        final(queued)@ == marked(old(queued)@, line_num),
{
    let src = chars_of(text);
    let row = padded_row(&src, w);
    replace_row(line_num, w, row.as_slice(), dst, queued);
}

/// The lines of `pairs` as characters, each with the row that it names.
pub open spec fn rows_named(pairs: Seq<(usize, &str)>) -> Seq<(usize, Seq<char>)> {
    Seq::new(pairs.len(), |i: int| (pairs[i].0, pairs[i].1@))
}

/// Shows each line of `lines` on the row that it names, in the order given,
/// and marks those rows dirty.
pub fn _screen_update_lines(
    w: usize,
    lines: Vec<(usize, &str)>,
    dst: &mut Vec<char>,
    queued: &mut Vec<usize>,
)
    requires
        forall|i: int| 0 <= i < lines.len() ==> (#[trigger] lines[i]).0 * w + w <= old(dst).len(),
    ensures
        (final(dst)@, final(queued)@) == rows_set(
            old(dst)@,
            old(queued)@,
            w as nat,
            rows_named(lines@),
        ),
        final(dst).len() == old(dst).len(),
{
    let mut i: usize = 0;
    assert(rows_named(lines@).take(0) == Seq::<(usize, Seq<char>)>::empty());
    while i < lines.len()
        invariant
            i <= lines.len(),
            dst.len() == old(dst).len(),
            forall|j: int| 0 <= j < lines.len() ==> (#[trigger] lines[j]).0 * w + w <= dst.len(),
            (dst@, queued@) == rows_set(
                old(dst)@,
                old(queued)@,
                w as nat,
                rows_named(lines@).take(i as int),
            ),
        decreases lines.len() - i,
    {
        let line_num = lines[i].0;
        let line = lines[i].1;
        assert(rows_named(lines@).take(i + 1).drop_last() == rows_named(lines@).take(i as int));
        assert(rows_named(lines@).take(i + 1).last() == (line_num, line@));
        screen_update_line(line_num, w, line, dst, queued);
        i += 1;
    }
    assert(rows_named(lines@).take(i as int) == rows_named(lines@));
}

/// Shows the lines of `text` on the rows from `line_num` on, one line per
/// row, and marks those rows dirty.
pub fn screen_update_line_down(
    line_num: usize,
    w: usize,
    text: &str,
    dst: &mut Vec<char>,
    queued: &mut Vec<usize>,
)
    requires
        line_num + split_lines(text@).len() <= usize::MAX,
        (line_num + split_lines(text@).len()) * w <= old(dst).len(),
    ensures
        (final(dst)@, final(queued)@) == rows_replaced(
            old(dst)@,
            old(queued)@,
            w as nat,
            line_num as int,
            split_lines(text@),
        ),
        final(dst).len() == old(dst).len(),
{
    let chars = chars_of(text);
    let lines = lines_of(&chars);
    let ghost rows = split_lines(text@);
    let mut i: usize = 0;
    assert(rows.take(0) == Seq::<Seq<char>>::empty());
    while i < lines.len()
        invariant
            i <= lines.len(),
            lines.len() == rows.len(),
            forall|j: int| 0 <= j < lines.len() ==> (#[trigger] lines[j])@ == rows[j],
            dst.len() == old(dst).len(),
            line_num + rows.len() <= usize::MAX,
            (line_num + rows.len()) * w <= dst.len(),
            (dst@, queued@) == rows_replaced(
                old(dst)@,
                old(queued)@,
                w as nat,
                line_num as int,
                rows.take(i as int),
            ),
        decreases lines.len() - i,
    {
        proof {
            assert(rows.take(i + 1).drop_last() == rows.take(i as int));
            assert(rows.take(i + 1).last() == rows[i as int]);
            lemma_mul_step(line_num + i, w as int);
            lemma_mul_le(line_num + i + 1, line_num + rows.len(), w as int);
            lemma_mul_le(0, line_num + i, w as int);
        }
        let row = padded_row(&lines[i], w);
        replace_row(line_num + i, w, row.as_slice(), dst, queued);
        i += 1;
    }
    assert(rows.take(i as int) == rows);
}

} // verus!
