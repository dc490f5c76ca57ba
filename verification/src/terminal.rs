//! A model of the terminal, to say what the output of a flush does: written
//! to a terminal that shows the canvas flushed before, it makes the terminal
//! show the canvas flushed now.

use vstd::prelude::*;
use crate::img::{Color, Image};
use crate::rds::{
    cell_ops, char_rows, flush_spec, glyph_for, lemma_glyph_shows, recolor, row_ops, rows_ops,
    unchanged, Glyph, Pen, TermOp,
};

verus! {

/// What a terminal shows and is set to: for each character cell the colors of
/// its upper and lower pixel, the cell under the cursor, and the two active
/// colors. A cell is named by its column and row, both counted from zero.
pub struct Terminal {
    pub width: int,
    pub cells: Map<(int, int), (Color, Color)>,
    pub col: int,
    pub row: int,
    pub fore: Color,
    pub back: Color,
}

/// The colors in which a glyph shows the upper and the lower pixel.
pub open spec fn glyph_pixels(g: Glyph, fore: Color, back: Color) -> (Color, Color) {
    match g {
        Glyph::Space => (back, back),
        Glyph::LowerHalf => (back, fore),
        Glyph::UpperHalf => (fore, back),
        Glyph::Full => (fore, fore),
    }
}

impl Terminal {
    /// The terminal after one piece of output. A glyph goes to the cell under
    /// the cursor, and the cursor moves on by one cell: to the right, or from
    /// the end of a row to the start of the next.
    pub open spec fn write(self, op: TermOp) -> Terminal {
        match op {
            TermOp::Home => Terminal { col: 0, row: 0, ..self },
            TermOp::MoveTo(row, col) => Terminal { col: col - 1, row: row - 1, ..self },
            TermOp::Fore(c) => Terminal { fore: c, ..self },
            TermOp::Back(c) => Terminal { back: c, ..self },
            TermOp::Cell(g) => Terminal {
                cells: self.cells.insert(
                    (self.col, self.row),
                    glyph_pixels(g, self.fore, self.back),
                ),
                col: if self.col + 1 < self.width {
                    self.col + 1
                } else {
                    0
                },
                row: if self.col + 1 < self.width {
                    self.row
                } else {
                    self.row + 1
                },
                ..self
            },
        }
    }

    /// The terminal after a run of output.
    pub open spec fn run(self, ops: Seq<TermOp>) -> Terminal
        decreases ops.len(),
    {
        if ops.len() == 0 {
            self
        } else {
            self.run(ops.drop_last()).write(ops.last())
        }
    }

    /// Whether the cell in column `col` of row `row` shows the two pixels that
    /// `img` has there.
    pub open spec fn shows_cell(self, img: &Image, col: int, row: int) -> bool {
        &&& self.cells.contains_key((col, row))
        &&& self.cells[(col, row)] == (img.at(col, 2 * row), img.at(col, 2 * row + 1))
    }

    /// Whether the terminal shows `img`, cell for cell.
    pub open spec fn shows(self, img: &Image) -> bool {
        forall|col: int, row: int|
            0 <= col < img.width() && 0 <= row < char_rows(img) ==> #[trigger] self.shows_cell(
                img,
                col,
                row,
            )
    }

    /// Whether the cell in column `col` of row `row` is as on `other`.
    pub open spec fn same_cell(self, other: Terminal, col: int, row: int) -> bool {
        &&& self.cells.contains_key((col, row)) == other.cells.contains_key((col, row))
        &&& self.cells[(col, row)] == other.cells[(col, row)]
    }

    /// Output written in two parts is written as one.
    pub proof fn lemma_run_concat(self, a: Seq<TermOp>, b: Seq<TermOp>)
        ensures
            self.run(a + b) == self.run(a).run(b),
        decreases b.len(),
    {
        if b.len() == 0 {
            assert(a + b =~= a);
        } else {
            self.lemma_run_concat(a, b.drop_last());
            assert((a + b).drop_last() =~= a + b.drop_last());
        }
    }

    /// A run of one piece is that piece.
    pub proof fn lemma_run_one(self, op: TermOp)
        ensures
            self.run(seq![op]) == self.write(op),
    {
        assert(seq![op].drop_last() =~= Seq::<TermOp>::empty());
        assert(self.run(Seq::<TermOp>::empty()) == self);
    }

    /// A run of two pieces is one after the other.
    pub proof fn lemma_run_two(self, first: TermOp, second: TermOp)
        ensures
            self.run(seq![first, second]) == self.write(first).write(second),
    {
        assert(seq![first, second].drop_last() =~= seq![first]);
        self.lemma_run_one(first);
    }
}

/// Whether cell `(col, row)` comes before cell `(x, r)` in reading order.
pub open spec fn reads_before(col: int, row: int, x: int, r: int) -> bool {
    row < r || (row == r && col < x)
}

/// The state of a flush that has dealt with the cells before `(x, r)`. The
/// terminal `t`, which was `t0` when the flush began, has the active colors
/// of `pen`; its cursor is on the cell that comes next, unless cells were
/// passed over; the cells dealt with show `cur`, and the others are as they
/// were.
pub open spec fn flushing(
    t0: Terminal,
    t: Terminal,
    cur: &Image,
    pen: Pen,
    x: int,
    r: int,
) -> bool {
    &&& t.width == cur.width()
    &&& t.fore == pen.fore
    &&& t.back == pen.back
    &&& !pen.stale && cur.width() > 0 ==> if x < cur.width() {
        t.col == x && t.row == r
    } else {
        t.col == 0 && t.row == r + 1
    }
    &&& forall|col: int, row: int|
        0 <= col < cur.width() && 0 <= row < char_rows(cur) && reads_before(col, row, x, r)
            ==> #[trigger] t.shows_cell(cur, col, row)
    &&& forall|col: int, row: int|
        0 <= col < cur.width() && 0 <= row < char_rows(cur) && !reads_before(col, row, x, r)
            ==> #[trigger] t.same_cell(t0, col, row)
}

/// What the output for one cell does to the terminal.
proof fn lemma_cell(t0: Terminal, t: Terminal, cur: &Image, prev: &Image, pen: Pen, x: int, r: int)
    requires
        0 <= x < cur.width(),
        0 <= r < char_rows(cur),
        char_rows(cur) <= 0x4000_0000,
        cur.width() <= 0x7fff_ffff,
        flushing(t0, t, cur, pen, x, r),
        cur.width() == prev.width() && cur.height() == prev.height() ==> t0.shows(prev),
    ensures
        flushing(
            t0,
            t.run(cell_ops(cur, prev, pen, x, 2 * r).ops),
            cur,
            cell_ops(cur, prev, pen, x, 2 * r).pen,
            x + 1,
            r,
        ),
{
    let out = cell_ops(cur, prev, pen, x, 2 * r);
    let after = t.run(out.ops);
    let c1 = cur.at(x, 2 * r);
    let c2 = cur.at(x, 2 * r + 1);
    if unchanged(cur, prev, x, 2 * r) {
        assert(t0.shows_cell(prev, x, r));
        assert(t.same_cell(t0, x, r));
        assert(t.shows_cell(cur, x, r));
        assert forall|col: int, row: int|
            0 <= col < cur.width() && 0 <= row < char_rows(cur) && reads_before(
                col,
                row,
                x + 1,
                r,
            ) implies #[trigger] after.shows_cell(cur, col, row) by {
            if !reads_before(col, row, x, r) {
                assert(col == x && row == r);
            }
        }
        assert forall|col: int, row: int|
            0 <= col < cur.width() && 0 <= row < char_rows(cur) && !reads_before(
                col,
                row,
                x + 1,
                r,
            ) implies #[trigger] after.same_cell(t0, col, row) by {
            assert(t.same_cell(t0, col, row));
        }
    } else {
        let place = if pen.stale {
            seq![TermOp::MoveTo((2 * r / 2 + 1) as u32, (x + 1) as u32)]
        } else {
            Seq::<TermOp>::empty()
        };
        let colored = recolor(pen, c1, c2);
        let g = glyph_for(colored.pen, c1, c2);
        // the cursor is put on the cell
        let placed = t.run(place);
        if pen.stale {
            t.lemma_run_one(TermOp::MoveTo((2 * r / 2 + 1) as u32, (x + 1) as u32));
        }
        assert(placed.col == x && placed.row == r);
        assert(placed.cells == t.cells && placed.fore == t.fore && placed.back == t.back);
        // the colors are chosen
        let chosen = placed.run(colored.ops);
        if colored.ops.len() == 1 {
            assert(colored.ops =~= seq![colored.ops[0]]);
            placed.lemma_run_one(colored.ops[0]);
        } else if colored.ops.len() == 2 {
            assert(colored.ops =~= seq![colored.ops[0], colored.ops[1]]);
            placed.lemma_run_two(colored.ops[0], colored.ops[1]);
        }
        assert(chosen.fore == colored.pen.fore && chosen.back == colored.pen.back);
        assert(chosen.col == x && chosen.row == r && chosen.cells == t.cells);
        // the glyph is written
        let written = chosen.run(seq![TermOp::Cell(g)]);
        chosen.lemma_run_one(TermOp::Cell(g));
        lemma_glyph_shows(pen, c1, c2);
        assert(glyph_pixels(g, colored.pen.fore, colored.pen.back) == (c1, c2));
        t.lemma_run_concat(place, colored.ops);
        t.lemma_run_concat(place + colored.ops, seq![TermOp::Cell(g)]);
        assert(after == written);
        assert(after.shows_cell(cur, x, r));
        assert forall|col: int, row: int|
            0 <= col < cur.width() && 0 <= row < char_rows(cur) && reads_before(
                col,
                row,
                x + 1,
                r,
            ) implies #[trigger] after.shows_cell(cur, col, row) by {
            if reads_before(col, row, x, r) {
                assert(t.shows_cell(cur, col, row));
            }
        }
        assert forall|col: int, row: int|
            0 <= col < cur.width() && 0 <= row < char_rows(cur) && !reads_before(
                col,
                row,
                x + 1,
                r,
            ) implies #[trigger] after.same_cell(t0, col, row) by {
            assert(t.same_cell(t0, col, row));
        }
    }
}

/// What the output for the first `n` cells of a row does to the terminal.
proof fn lemma_row(
    t0: Terminal,
    t: Terminal,
    cur: &Image,
    prev: &Image,
    pen: Pen,
    r: int,
    n: nat,
)
    requires
        n <= cur.width(),
        0 <= r < char_rows(cur),
        char_rows(cur) <= 0x4000_0000,
        cur.width() <= 0x7fff_ffff,
        flushing(t0, t, cur, pen, 0, r),
        cur.width() == prev.width() && cur.height() == prev.height() ==> t0.shows(prev),
    ensures
        flushing(
            t0,
            t.run(row_ops(cur, prev, pen, 2 * r, n).ops),
            cur,
            row_ops(cur, prev, pen, 2 * r, n).pen,
            n as int,
            r,
        ),
    decreases n,
{
    if n > 0 {
        let before = row_ops(cur, prev, pen, 2 * r, (n - 1) as nat);
        lemma_row(t0, t, cur, prev, pen, r, (n - 1) as nat);
        lemma_cell(t0, t.run(before.ops), cur, prev, before.pen, n - 1, r);
        t.lemma_run_concat(before.ops, cell_ops(cur, prev, before.pen, n - 1, 2 * r).ops);
    }
}

/// What the output for the first `r` rows does to the terminal.
proof fn lemma_rows(t0: Terminal, t: Terminal, cur: &Image, prev: &Image, pen: Pen, r: nat)
    requires
        r <= char_rows(cur),
        char_rows(cur) <= 0x4000_0000,
        0 <= cur.width() <= 0x7fff_ffff,
        flushing(t0, t, cur, pen, 0, 0),
        cur.width() == prev.width() && cur.height() == prev.height() ==> t0.shows(prev),
    ensures
        flushing(
            t0,
            t.run(rows_ops(cur, prev, pen, r).ops),
            cur,
            rows_ops(cur, prev, pen, r).pen,
            0,
            r as int,
        ),
    decreases r,
{
    if r > 0 {
        let before = rows_ops(cur, prev, pen, (r - 1) as nat);
        let mid = t.run(before.ops);
        lemma_rows(t0, t, cur, prev, pen, (r - 1) as nat);
        lemma_row(t0, mid, cur, prev, before.pen, r - 1, cur.width() as nat);
        let row = row_ops(cur, prev, before.pen, 2 * (r - 1), cur.width() as nat);
        t.lemma_run_concat(before.ops, row.ops);
        let after = mid.run(row.ops);
        // the end of one row is the start of the next
        assert forall|col: int, row_: int|
            0 <= col < cur.width() && 0 <= row_ < char_rows(cur) && reads_before(
                col,
                row_,
                0,
                r as int,
            ) implies #[trigger] after.shows_cell(cur, col, row_) by {
            assert(reads_before(col, row_, cur.width(), r - 1));
        }
        assert forall|col: int, row_: int|
            0 <= col < cur.width() && 0 <= row_ < char_rows(cur) && !reads_before(
                col,
                row_,
                0,
                r as int,
            ) implies #[trigger] after.same_cell(t0, col, row_) by {
            assert(!reads_before(col, row_, cur.width(), r - 1));
        }
    } else {
        assert(t.run(Seq::<TermOp>::empty()) == t);
    }
}

/// What a flush does. Take a terminal as wide as the canvas `cur`, with the
/// active colors `fore` and `back`, that shows the canvas `prev` if that has
/// the size of `cur`, and anything if not. Once the output of flushing `cur`
/// over `prev` is written to it, the terminal shows `cur`, and its active
/// colors are those that the flush reports.
pub proof fn lemma_flush_shows(t: Terminal, cur: &Image, prev: &Image)
    requires
        cur.wf(),
        t.width == cur.width(),
        cur.width() == prev.width() && cur.height() == prev.height() ==> t.shows(prev),
    ensures
        t.run(flush_spec(cur, prev, t.fore, t.back).ops).shows(cur),
        t.run(flush_spec(cur, prev, t.fore, t.back).ops).fore == flush_spec(
            cur,
            prev,
            t.fore,
            t.back,
        ).pen.fore,
        t.run(flush_spec(cur, prev, t.fore, t.back).ops).back == flush_spec(
            cur,
            prev,
            t.fore,
            t.back,
        ).pen.back,
{
    cur.lemma_size_bounds();
    let pen = Pen { fore: t.fore, back: t.back, stale: false };
    let home = t.run(seq![TermOp::Home]);
    t.lemma_run_one(TermOp::Home);
    assert forall|col: int, row: int|
        0 <= col < cur.width() && 0 <= row < char_rows(cur) && !reads_before(
            col,
            row,
            0,
            0,
        ) implies #[trigger] home.same_cell(t, col, row) by {
    }
    lemma_rows(t, home, cur, prev, pen, char_rows(cur));
    let all = rows_ops(cur, prev, pen, char_rows(cur));
    t.lemma_run_concat(seq![TermOp::Home], all.ops);
    let end = home.run(all.ops);
    assert forall|col: int, row: int|
        0 <= col < cur.width() && 0 <= row < char_rows(cur) implies #[trigger] end.shows_cell(
        cur,
        col,
        row,
    ) by {
        assert(reads_before(col, row, 0, char_rows(cur) as int));
    }
}

} // verus!
