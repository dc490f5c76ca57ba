//! The frame renderer: drawing directives, the canvas pair they act on, and
//! the flush that turns a canvas into terminal output. Two rows of pixels
//! share one row of characters, through the half-block glyphs.

use vstd::prelude::*;
use crate::ellipse::Ellipse;
use crate::img::{rect_points, Color, Image};
use crate::math::Vec2;
use crate::numeric::{decimal_digits, push_decimal};

verus! {

/// A message from the drawing side to the renderer.
#[derive(Debug, Copy, Clone, PartialEq, Eq, Structural)]
pub enum RenderingDirective {
    DrawLine(Vec2, Vec2, Color),
    DrawRect(Vec2, Vec2, Color),
    DrawRectBoudary(Vec2, Vec2, Color),
    DrawEllipseBoudary(Vec2, Vec2, Color),
    DrawPoint(Vec2, Color),
    ClearScreen(Color),
    UpdateScreenSize(Vec2),
    BeginFrame,
    PushFrame,
    Stop,
}

/// What one character cell shows of its two pixels.
#[derive(Debug, Copy, Clone, PartialEq, Eq, Structural)]
pub enum Glyph {
    /// Both pixels in the background color.
    Space,
    /// The lower pixel in the foreground color.
    LowerHalf,
    /// The upper pixel in the foreground color.
    UpperHalf,
    /// Both pixels in the foreground color.
    Full,
}

/// One piece of terminal output.
#[derive(Debug, Copy, Clone, PartialEq, Eq, Structural)]
pub enum TermOp {
    /// Puts the cursor in the top left corner.
    Home,
    /// Puts the cursor at a row and a column, both counted from one.
    MoveTo(u32, u32),
    /// Selects the foreground color.
    Fore(Color),
    /// Selects the background color.
    Back(Color),
    /// Writes one glyph and moves the cursor one cell on.
    Cell(Glyph),
}

/// What the terminal is set to while a canvas is flushed: the two active
/// colors, and whether cells were passed over since the cursor last wrote.
#[derive(Debug, Copy, Clone, PartialEq, Eq, Structural)]
pub struct Pen {
    pub fore: Color,
    pub back: Color,
    pub stale: bool,
}

/// The terminal's state after some output, and that output.
pub struct Flushed {
    pub pen: Pen,
    pub ops: Seq<TermOp>,
}

/// Whether `c` is one of the two active colors.
pub open spec fn active(pen: Pen, c: Color) -> bool {
    c == pen.fore || c == pen.back
}

/// The active colors for a cell with the pixel `c1` above `c2`. Where both are
/// active already nothing changes. Where one is, the other takes the role that
/// the first does not fill. Where neither is, `c1` becomes the foreground and
/// `c2` the background.
pub open spec fn recolor(pen: Pen, c1: Color, c2: Color) -> Flushed {
    if active(pen, c1) && active(pen, c2) {
        Flushed { pen, ops: Seq::empty() }
    } else if !active(pen, c1) && !active(pen, c2) {
        Flushed {
            pen: Pen { fore: c1, back: c2, stale: pen.stale },
            ops: seq![TermOp::Fore(c1), TermOp::Back(c2)],
        }
    } else {
        let known = if active(pen, c1) {
            c1
        } else {
            c2
        };
        let fresh = if active(pen, c1) {
            c2
        } else {
            c1
        };
        if known == pen.back {
            Flushed {
                pen: Pen { fore: fresh, back: pen.back, stale: pen.stale },
                ops: seq![TermOp::Fore(fresh)],
            }
        } else {
            Flushed {
                pen: Pen { fore: pen.fore, back: fresh, stale: pen.stale },
                ops: seq![TermOp::Back(fresh)],
            }
        }
    }
}

/// The glyph for a cell with the pixel `c1` above `c2`, both active colors.
pub open spec fn glyph_for(pen: Pen, c1: Color, c2: Color) -> Glyph {
    if c1 == pen.back && c2 == pen.back {
        Glyph::Space
    } else if c1 == pen.back && c2 == pen.fore {
        Glyph::LowerHalf
    } else if c1 == pen.fore && c2 == pen.back {
        Glyph::UpperHalf
    } else {
        Glyph::Full
    }
}

/// Whether the glyph shows the two pixels in the active colors.
pub open spec fn shows(pen: Pen, g: Glyph, c1: Color, c2: Color) -> bool {
    match g {
        Glyph::Space => c1 == pen.back && c2 == pen.back,
        Glyph::LowerHalf => c1 == pen.back && c2 == pen.fore,
        Glyph::UpperHalf => c1 == pen.fore && c2 == pen.back,
        Glyph::Full => c1 == pen.fore && c2 == pen.fore,
    }
}

/// Once the colors are chosen for a cell, its glyph shows both pixels as they
/// are: no pair of pixels is left without one.
pub proof fn lemma_glyph_shows(pen: Pen, c1: Color, c2: Color)
    ensures
        shows(recolor(pen, c1, c2).pen, glyph_for(recolor(pen, c1, c2).pen, c1, c2), c1, c2),
{
}

/// Whether the cell over the pixels `(x, y)` and `(x, y + 1)` shows on `cur`
/// what it showed on `prev`, a canvas of the same size.
pub open spec fn unchanged(cur: &Image, prev: &Image, x: int, y: int) -> bool {
    &&& cur.width() == prev.width()
    &&& cur.height() == prev.height()
    &&& cur.at(x, y) == prev.at(x, y)
    &&& cur.at(x, y + 1) == prev.at(x, y + 1)
}

/// The output for the cell over the pixels `(x, y)` and `(x, y + 1)`. A cell
/// that did not change gives none and leaves the cursor stale. Another one
/// gives a cursor move if the cursor is stale, then the color changes that it
/// needs, then its glyph.
pub open spec fn cell_ops(cur: &Image, prev: &Image, pen: Pen, x: int, y: int) -> Flushed {
    let c1 = cur.at(x, y);
    let c2 = cur.at(x, y + 1);
    if unchanged(cur, prev, x, y) {
        Flushed { pen: Pen { fore: pen.fore, back: pen.back, stale: true }, ops: Seq::empty() }
    } else {
        let place = if pen.stale {
            seq![TermOp::MoveTo((y / 2 + 1) as u32, (x + 1) as u32)]
        } else {
            Seq::<TermOp>::empty()
        };
        let colored = recolor(pen, c1, c2);
        Flushed {
            pen: Pen { fore: colored.pen.fore, back: colored.pen.back, stale: false },
            ops: place + colored.ops + seq![TermOp::Cell(glyph_for(colored.pen, c1, c2))],
        }
    }
}

/// The output for the first `n` cells of the character row over the pixel
/// rows `y` and `y + 1`.
pub open spec fn row_ops(cur: &Image, prev: &Image, pen: Pen, y: int, n: nat) -> Flushed
    decreases n,
{
    if n == 0 {
        Flushed { pen, ops: Seq::empty() }
    } else {
        let before = row_ops(cur, prev, pen, y, (n - 1) as nat);
        let cell = cell_ops(cur, prev, before.pen, n - 1, y);
        Flushed { pen: cell.pen, ops: before.ops + cell.ops }
    }
}

/// The output for the first `r` character rows.
pub open spec fn rows_ops(cur: &Image, prev: &Image, pen: Pen, r: nat) -> Flushed
    decreases r,
{
    if r == 0 {
        Flushed { pen, ops: Seq::empty() }
    } else {
        let before = rows_ops(cur, prev, pen, (r - 1) as nat);
        let row = row_ops(cur, prev, before.pen, 2 * (r - 1), cur.width() as nat);
        Flushed { pen: row.pen, ops: before.ops + row.ops }
    }
}

/// How many character rows a canvas takes.
pub open spec fn char_rows(cur: &Image) -> nat {
    ((cur.height() + 1) / 2) as nat
}

/// The output of flushing `cur` over `prev` with the active colors `fore` and
/// `back`: the cursor goes home, then every cell follows in reading order.
pub open spec fn flush_spec(cur: &Image, prev: &Image, fore: Color, back: Color) -> Flushed {
    let all = rows_ops(cur, prev, Pen { fore, back, stale: false }, char_rows(cur));
    Flushed { pen: all.pen, ops: seq![TermOp::Home] + all.ops }
}

/// Chooses the active colors for a cell and appends the color changes.
fn choose_colors(pen: Pen, c1: Color, c2: Color, ops: &mut Vec<TermOp>) -> (next: Pen)
    ensures
        next == recolor(pen, c1, c2).pen,
        final(ops)@ == old(ops)@ + recolor(pen, c1, c2).ops,
{
    let known1 = c1 == pen.fore || c1 == pen.back;
    let known2 = c2 == pen.fore || c2 == pen.back;
    if known1 && known2 {
        pen
    } else if !known1 && !known2 {
        ops.push(TermOp::Fore(c1));
        ops.push(TermOp::Back(c2));
        Pen { fore: c1, back: c2, stale: pen.stale }
    } else {
        let known = if known1 {
            c1
        } else {
            c2
        };
        let fresh = if known1 {
            c2
        } else {
            c1
        };
        if known == pen.back {
            ops.push(TermOp::Fore(fresh));
            Pen { fore: fresh, back: pen.back, stale: pen.stale }
        } else {
            ops.push(TermOp::Back(fresh));
            Pen { fore: pen.fore, back: fresh, stale: pen.stale }
        }
    }
}

/// The glyph for a cell whose pixels are both in active colors.
fn choose_glyph(pen: Pen, c1: Color, c2: Color) -> (g: Glyph)
    ensures
        g == glyph_for(pen, c1, c2),
{
    if c1 == pen.back && c2 == pen.back {
        Glyph::Space
    } else if c1 == pen.back && c2 == pen.fore {
        Glyph::LowerHalf
    } else if c1 == pen.fore && c2 == pen.back {
        Glyph::UpperHalf
    } else {
        Glyph::Full
    }
}

/// Flushes the canvas `cur` to a terminal that shows `prev` and has the
/// active colors `fore` and `back`. Gives the output, and the colors that are
/// active after it.
pub fn flush(cur: &Image, prev: &Image, fore: Color, back: Color) -> (r: (
    Vec<TermOp>,
    Color,
    Color,
))
    requires
        cur.wf(),
        prev.wf(),
    ensures
        r.0@ == flush_spec(cur, prev, fore, back).ops,
        r.1 == flush_spec(cur, prev, fore, back).pen.fore,
        r.2 == flush_spec(cur, prev, fore, back).pen.back,
{
    let size = cur.size();
    let old_size = prev.size();
    let same_size = size.x == old_size.x && size.y == old_size.y;
    let ghost start = Pen { fore, back, stale: false };
    let mut ops: Vec<TermOp> = Vec::new();
    ops.push(TermOp::Home);
    let mut pen = Pen { fore, back, stale: false };
    let mut y: i64 = 0;
    let ghost r: nat = 0;
    while y < size.y as i64
        invariant
            cur.wf(),
            prev.wf(),
            size.x == cur.width(),
            size.y == cur.height(),
            same_size == (cur.width() == prev.width() && cur.height() == prev.height()),
            start == (Pen { fore, back, stale: false }),
            size.x >= 0,
            y == 2 * r,
            y <= size.y + 1,
            ops@ == seq![TermOp::Home] + rows_ops(cur, prev, start, r).ops,
            pen == rows_ops(cur, prev, start, r).pen,
        decreases size.y + 2 - y,
    {
        let ghost row_start = pen;
        let ghost done = ops@;
        let mut x: i32 = 0;
        while x < size.x
            invariant
                cur.wf(),
                prev.wf(),
                size.x == cur.width(),
                size.y == cur.height(),
                same_size == (cur.width() == prev.width() && cur.height() == prev.height()),
                0 <= x <= size.x,
                0 <= y < size.y,
                ops@ == done + row_ops(cur, prev, row_start, y as int, x as nat).ops,
                pen == row_ops(cur, prev, row_start, y as int, x as nat).pen,
            decreases size.x - x,
        {
            let p1 = Vec2::new(x, y as i32);
            let p2 = Vec2::new(x, (y + 1) as i32);
            let c1 = cur.get(p1);
            let c2 = cur.get(p2);
            let same = same_size && prev.get(p1) == c1 && prev.get(p2) == c2;
            if same {
                pen = Pen { fore: pen.fore, back: pen.back, stale: true };
            } else {
                if pen.stale {
                    ops.push(TermOp::MoveTo((y / 2 + 1) as u32, (x + 1) as u32));
                }
                let colored = choose_colors(pen, c1, c2, &mut ops);
                ops.push(TermOp::Cell(choose_glyph(colored, c1, c2)));
                pen = Pen { fore: colored.fore, back: colored.back, stale: false };
            }
            x = x + 1;
        }
        proof {
            r = r + 1;
        }
        y = y + 2;
    }
    (ops, pen.fore, pen.back)
}

/// The bytes of a glyph: a space, or the UTF-8 of a block character.
pub open spec fn glyph_bytes(g: Glyph) -> Seq<u8> {
    match g {
        Glyph::Space => seq![0x20u8],
        Glyph::LowerHalf => seq![0xe2u8, 0x96, 0x84],
        Glyph::UpperHalf => seq![0xe2u8, 0x96, 0x80],
        Glyph::Full => seq![0xe2u8, 0x96, 0x88],
    }
}

/// The bytes that one piece of output sends to the terminal.
pub open spec fn op_bytes(op: TermOp) -> Seq<u8> {
    match op {
        TermOp::Home => seq![0x1bu8, 0x5b, 0x48],
        TermOp::MoveTo(row, col) => seq![0x1bu8, 0x5b] + decimal_digits(row as nat) + seq![0x3bu8]
            + decimal_digits(col as nat) + seq![0x48u8],
        TermOp::Fore(c) => c.escape_bytes(false),
        TermOp::Back(c) => c.escape_bytes(true),
        TermOp::Cell(g) => glyph_bytes(g),
    }
}

/// The bytes that a run of output sends to the terminal.
pub open spec fn ops_bytes(ops: Seq<TermOp>) -> Seq<u8>
    decreases ops.len(),
{
    if ops.len() == 0 {
        Seq::empty()
    } else {
        ops_bytes(ops.drop_last()) + op_bytes(ops.last())
    }
}

/// Appends the bytes of `op` to `out`.
fn push_op(op: TermOp, out: &mut Vec<u8>)
    ensures
        final(out)@ == old(out)@ + op_bytes(op),
{
    match op {
        TermOp::Home => {
            out.push(0x1b);
            out.push(0x5b);
            out.push(0x48);
        },
        TermOp::MoveTo(row, col) => {
            out.push(0x1b);
            out.push(0x5b);
            push_decimal(out, row);
            out.push(0x3b);
            push_decimal(out, col);
            out.push(0x48);
        },
        TermOp::Fore(c) => {
            c.push_escape(false, out);
        },
        TermOp::Back(c) => {
            c.push_escape(true, out);
        },
        TermOp::Cell(g) => {
            match g {
                Glyph::Space => {
                    out.push(0x20);
                },
                Glyph::LowerHalf => {
                    out.push(0xe2);
                    out.push(0x96);
                    out.push(0x84);
                },
                Glyph::UpperHalf => {
                    out.push(0xe2);
                    out.push(0x96);
                    out.push(0x80);
                },
                Glyph::Full => {
                    out.push(0xe2);
                    out.push(0x96);
                    out.push(0x88);
                },
            }
        },
    }
}

/// The bytes to write to the terminal for `ops`.
pub fn encode(ops: &Vec<TermOp>) -> (out: Vec<u8>)
    ensures
        out@ == ops_bytes(ops@),
{
    let mut out: Vec<u8> = Vec::new();
    let mut i: usize = 0;
    while i < ops.len()
        invariant
            i <= ops.len(),
            out@ == ops_bytes(ops@.take(i as int)),
        decreases ops.len() - i,
    {
        assert(ops@.take(i + 1).drop_last() =~= ops@.take(i as int));
        push_op(ops[i], &mut out);
        i = i + 1;
    }
    assert(ops@.take(i as int) =~= ops@);
    out
}

/// A row of cells that show what they showed before gives no output and
/// leaves the active colors alone.
pub proof fn lemma_row_unchanged(cur: &Image, prev: &Image, pen: Pen, y: int, n: nat)
    requires
        cur.width() == prev.width(),
        cur.height() == prev.height(),
        forall|x: int, y: int| cur.at(x, y) == prev.at(x, y),
    ensures
        row_ops(cur, prev, pen, y, n).ops == Seq::<TermOp>::empty(),
        row_ops(cur, prev, pen, y, n).pen.fore == pen.fore,
        row_ops(cur, prev, pen, y, n).pen.back == pen.back,
    decreases n,
{
    if n > 0 {
        lemma_row_unchanged(cur, prev, pen, y, (n - 1) as nat);
    }
}

/// Rows of cells that show what they showed before give no output and leave
/// the active colors alone.
pub proof fn lemma_rows_unchanged(cur: &Image, prev: &Image, pen: Pen, r: nat)
    requires
        cur.width() == prev.width(),
        cur.height() == prev.height(),
        forall|x: int, y: int| cur.at(x, y) == prev.at(x, y),
    ensures
        rows_ops(cur, prev, pen, r).ops == Seq::<TermOp>::empty(),
        rows_ops(cur, prev, pen, r).pen.fore == pen.fore,
        rows_ops(cur, prev, pen, r).pen.back == pen.back,
    decreases r,
{
    if r > 0 {
        lemma_rows_unchanged(cur, prev, pen, (r - 1) as nat);
        lemma_row_unchanged(
            cur,
            prev,
            rows_ops(cur, prev, pen, (r - 1) as nat).pen,
            2 * (r - 1),
            cur.width() as nat,
        );
    }
}

/// Flushing a canvas that shows what the terminal shows already sends the
/// cursor home and nothing else: no color change and no glyph, for any cell.
/// The active colors stay.
pub proof fn lemma_flush_unchanged(cur: &Image, prev: &Image, fore: Color, back: Color)
    requires
        cur.width() == prev.width(),
        cur.height() == prev.height(),
        forall|x: int, y: int| cur.at(x, y) == prev.at(x, y),
    ensures
        flush_spec(cur, prev, fore, back).ops == seq![TermOp::Home],
        flush_spec(cur, prev, fore, back).pen.fore == fore,
        flush_spec(cur, prev, fore, back).pen.back == back,
{
    lemma_rows_unchanged(cur, prev, Pen { fore, back, stale: false }, char_rows(cur));
}

/// What the renderer's worker has to do after a directive.
#[derive(Debug, Clone, PartialEq, Eq)]
pub enum ServerAction {
    /// Nothing: the directive changed the canvas only.
    Nothing,
    /// Meet the drawing side, which waits for the frame to start.
    Rendezvous,
    /// Write this output to the terminal.
    Write(Vec<TermOp>),
    /// End the worker.
    Stop,
}

/// The renderer's state: the canvas that directives draw on, the canvas that
/// the terminal shows, and the terminal's two active colors.
pub struct RenderServer {
    screen: Image,
    prev_screen: Image,
    fore: Color,
    back: Color,
}

/// Whether a canvas can have the size `size`: no side is negative, and the
/// number of cells is one that the machine can count.
pub open spec fn can_resize_to(size: Vec2) -> bool {
    size.x >= 0 && size.y >= 0 && size.x * size.y <= usize::MAX
}

/// Whether `after` shows what `before` shows, cell for cell.
pub open spec fn same_picture(after: &Image, before: &Image) -> bool {
    &&& after.wf()
    &&& after.width() == before.width()
    &&& after.height() == before.height()
    &&& forall|x: int, y: int| #[trigger] after.at(x, y) == before.at(x, y)
}

impl RenderServer {
    /// Both canvases are well formed.
    pub closed spec fn wf(&self) -> bool {
        self.screen.wf() && self.prev_screen.wf()
    }

    /// The canvas that directives draw on.
    pub closed spec fn screen(&self) -> Image {
        self.screen
    }

    /// The canvas that the terminal shows: the one flushed last.
    pub closed spec fn shown(&self) -> Image {
        self.prev_screen
    }

    /// The terminal's active foreground color.
    pub closed spec fn fore(&self) -> Color {
        self.fore
    }

    /// The terminal's active background color.
    pub closed spec fn back(&self) -> Color {
        self.back
    }

    /// What the directive `d` does: `after` is the state that follows `self`,
    /// and `act` is what the worker is told to do. A drawing directive changes
    /// the canvas and nothing else. A new size gives a black canvas of that
    /// size, where there can be one, and is passed over where not. Pushing
    /// the frame gives the output of the flush, makes its colors the active
    /// ones and the canvas the one shown.
    pub open spec fn applied(
        &self,
        after: &RenderServer,
        d: RenderingDirective,
        act: ServerAction,
    ) -> bool {
        let drawn = after.shown() == self.shown() && after.fore() == self.fore() && after.back()
            == self.back() && act == ServerAction::Nothing;
        let idle = after.screen() == self.screen() && after.shown() == self.shown() && after.fore()
            == self.fore() && after.back() == self.back();
        match d {
            RenderingDirective::DrawLine(p1, p2, c) => drawn && after.screen().painted(
                &self.screen(),
                self.screen().line_on(p1.x as int, p1.y as int, p2.x as int, p2.y as int).points(),
                c,
            ),
            RenderingDirective::DrawRect(p, s, c) => drawn && after.screen().painted(
                &self.screen(),
                rect_points(p, s),
                c,
            ),
            RenderingDirective::DrawRectBoudary(p, s, c) => drawn && after.screen().painted(
                &self.screen(),
                self.screen().rect_boundary_points(p, s),
                c,
            ),
            RenderingDirective::DrawEllipseBoudary(center, s, c) => drawn
                && after.screen().painted(
                &self.screen(),
                Ellipse::inscribed(s.x as int, s.y as int).points(
                    center.x as int,
                    center.y as int,
                ),
                c,
            ),
            RenderingDirective::DrawPoint(p, c) => drawn && after.screen().painted(
                &self.screen(),
                set![(p.x as int, p.y as int)],
                c,
            ),
            RenderingDirective::ClearScreen(c) => {
                &&& drawn
                &&& after.screen().width() == self.screen().width()
                &&& after.screen().height() == self.screen().height()
                &&& after.screen().all(c)
            },
            RenderingDirective::UpdateScreenSize(size) => {
                &&& drawn
                &&& if can_resize_to(size) {
                    &&& after.screen().width() == size.x
                    &&& after.screen().height() == size.y
                    &&& after.screen().all(Color::black())
                } else {
                    after.screen() == self.screen()
                }
            },
            RenderingDirective::BeginFrame => idle && act == ServerAction::Rendezvous,
            RenderingDirective::PushFrame => {
                let out = flush_spec(&self.screen(), &self.shown(), self.fore(), self.back());
                &&& act matches ServerAction::Write(ops)
                &&& ops@ == out.ops
                &&& after.fore() == out.pen.fore
                &&& after.back() == out.pen.back
                &&& after.screen() == self.screen()
                &&& same_picture(&after.shown(), &self.screen())
            },
            RenderingDirective::Stop => idle && act == ServerAction::Stop,
        }
    }

    /// A renderer before its first frame: both canvases are empty and both
    /// active colors black.
    pub fn new() -> (s: Self)
        ensures
            s.wf(),
            s.screen().width() == 0 && s.screen().height() == 0,
            s.shown().width() == 0 && s.shown().height() == 0,
            s.fore() == Color::black(),
            s.back() == Color::black(),
    {
        RenderServer {
            screen: Image::new(0, 0),
            prev_screen: Image::new(0, 0),
            fore: Color::black(),
            back: Color::black(),
        }
    }

    /// The output that sets the terminal to the active colors, to be written
    /// once before the first frame.
    pub fn startup(&self) -> (ops: Vec<TermOp>)
        ensures
            ops@ == seq![TermOp::Back(self.back()), TermOp::Fore(self.fore())],
    {
        let mut ops: Vec<TermOp> = Vec::new();
        ops.push(TermOp::Back(self.back));
        ops.push(TermOp::Fore(self.fore));
        ops
    }

    /// Carries out one directive.
    pub fn handle(&mut self, d: RenderingDirective) -> (act: ServerAction)
        requires
            old(self).wf(),
        ensures
            final(self).wf(),
            old(self).applied(final(self), d, act),
    {
        match d {
            RenderingDirective::DrawLine(p1, p2, c) => {
                self.screen.line(p1, p2, c);
                ServerAction::Nothing
            },
            RenderingDirective::DrawRect(p, s, c) => {
                self.screen.rect(p, s, c);
                ServerAction::Nothing
            },
            RenderingDirective::DrawRectBoudary(p, s, c) => {
                self.screen.rect_boudary(p, s, c);
                ServerAction::Nothing
            },
            RenderingDirective::DrawEllipseBoudary(center, s, c) => {
                self.screen.ellipse_boundary(center, s, c);
                ServerAction::Nothing
            },
            RenderingDirective::DrawPoint(p, c) => {
                self.screen.point(p, c);
                ServerAction::Nothing
            },
            RenderingDirective::ClearScreen(c) => {
                self.screen.clear(c);
                ServerAction::Nothing
            },
            RenderingDirective::UpdateScreenSize(size) => {
                if size.x >= 0 && size.y >= 0 {
                    assert(size.x * size.y <= 0x4000_0000_0000_0000) by (nonlinear_arith)
                        requires
                            0 <= size.x <= 0x7fff_ffff,
                            0 <= size.y <= 0x7fff_ffff,
                    ;
                    if size.x as u64 * size.y as u64 <= usize::MAX as u64 {
                        self.screen.resize(size.x as usize, size.y as usize);
                    }
                }
                ServerAction::Nothing
            },
            RenderingDirective::BeginFrame => ServerAction::Rendezvous,
            RenderingDirective::PushFrame => {
                let (ops, fore, back) = flush(
                    &self.screen,
                    &self.prev_screen,
                    self.fore,
                    self.back,
                );
                self.fore = fore;
                self.back = back;
                self.prev_screen = self.screen.duplicate();
                ServerAction::Write(ops)
            },
            RenderingDirective::Stop => ServerAction::Stop,
        }
    }

    /// Pushing a frame twice, with no directive between, flushes a canvas
    /// that the terminal shows already: the second flush sends the cursor
    /// home and nothing else, and leaves the active colors alone.
    pub proof fn lemma_second_push_is_empty(
        &self,
        first: &RenderServer,
        act1: ServerAction,
        second: &RenderServer,
        act2: ServerAction,
    )
        requires
            self.applied(first, RenderingDirective::PushFrame, act1),
            first.applied(second, RenderingDirective::PushFrame, act2),
        ensures
            act2 matches ServerAction::Write(ops) && ops@ == seq![TermOp::Home],
            second.fore() == first.fore(),
            second.back() == first.back(),
    {
        lemma_flush_unchanged(&first.screen(), &first.shown(), first.fore(), first.back());
    }
}

/// Why an operation of the drawing side is out of order.
#[derive(Debug, Copy, Clone, PartialEq, Eq, Structural)]
pub enum FrameError {
    /// A frame is being built already.
    AlreadyBuilding,
    /// No frame is being built.
    NotBuilding,
}

impl FrameError {
    /// The error in words.
    pub fn message(&self) -> (m: &'static str)
        ensures
            m@ == (match *self {
                FrameError::AlreadyBuilding => "begin_draw called when already building a frame"@,
                FrameError::NotBuilding => "drawing outside of a frame build (call begin_draw)"@,
            }),
    {
        match self {
            FrameError::AlreadyBuilding => "begin_draw called when already building a frame",
            FrameError::NotBuilding => "drawing outside of a frame build (call begin_draw)",
        }
    }
}

/// The drawing side of the renderer: it keeps track of whether a frame is
/// being built and of the size the screen had at the last frame, and turns each
/// operation into the directives to send.
pub struct Renderer {
    building_frame: bool,
    prev_screen_size: Vec2,
}

impl Renderer {
    /// Whether a frame is being built.
    pub closed spec fn building(&self) -> bool {
        self.building_frame
    }

    /// The size that the screen had when the last frame was begun.
    pub closed spec fn last_size(&self) -> Vec2 {
        self.prev_screen_size
    }

    /// The drawing side before its first frame.
    pub fn new() -> (r: Self)
        ensures
            !r.building(),
            r.last_size() == (Vec2 { x: 0, y: 0 }),
    {
        Renderer { building_frame: false, prev_screen_size: Vec2::new(0, 0) }
    }

    /// The size in pixels of a terminal with the given numbers of columns and
    /// rows: each row of characters holds two rows of pixels.
    pub fn get_size(cols: u16, rows: u16) -> (size: Vec2)
        ensures
            size.x == cols,
            size.y == 2 * rows,
    {
        Vec2::new(cols as i32, 2 * (rows as i32))
    }

    /// Whether drawing operations are in order: they are while a frame is
    /// being built, and at no other time.
    pub fn can_draw(&self) -> (r: Result<(), FrameError>)
        ensures
            r == (if self.building() {
                Ok::<(), FrameError>(())
            } else {
                Err::<(), FrameError>(FrameError::NotBuilding)
            }),
    {
        if self.building_frame {
            Ok(())
        } else {
            Err(FrameError::NotBuilding)
        }
    }

    /// Whether a frame can be begun: it can unless one is being built.
    pub fn can_begin(&self) -> (r: Result<(), FrameError>)
        ensures
            r == (if self.building() {
                Err::<(), FrameError>(FrameError::AlreadyBuilding)
            } else {
                Ok::<(), FrameError>(())
            }),
    {
        if self.building_frame {
            Err(FrameError::AlreadyBuilding)
        } else {
            Ok(())
        }
    }

    /// Begins a frame on a screen of the size `new_size`. Gives the
    /// directives to send: the new size first if it differs from that of the
    /// last frame, then the start of the frame.
    pub fn begin_draw(&mut self, new_size: Vec2) -> (out: Vec<RenderingDirective>)
        requires
            !old(self).building(),
        ensures
            final(self).building(),
            final(self).last_size() == new_size,
            out@ == if new_size != old(self).last_size() {
                seq![RenderingDirective::UpdateScreenSize(new_size), RenderingDirective::BeginFrame]
            } else {
                seq![RenderingDirective::BeginFrame]
            },
    {
        let mut out: Vec<RenderingDirective> = Vec::new();
        self.building_frame = true;
        if self.prev_screen_size.x != new_size.x || self.prev_screen_size.y != new_size.y {
            out.push(RenderingDirective::UpdateScreenSize(new_size));
            self.prev_screen_size = new_size;
        }
        out.push(RenderingDirective::BeginFrame);
        out
    }

    /// Ends the frame. Gives the directive that pushes it to the screen.
    pub fn end_draw(&mut self) -> (out: RenderingDirective)
        requires
            old(self).building(),
        ensures
            !final(self).building(),
            final(self).last_size() == old(self).last_size(),
            out == RenderingDirective::PushFrame,
    {
        self.building_frame = false;
        RenderingDirective::PushFrame
    }

    /// The directive that sets every pixel of the screen to `c`.
    pub fn clear_screen(&self, c: Color) -> (out: RenderingDirective)
        requires
            self.building(),
        ensures
            out == RenderingDirective::ClearScreen(c),
    {
        RenderingDirective::ClearScreen(c)
    }

    /// The directive that draws a line from `p1` to `p2`.
    pub fn draw_line(&self, p1: Vec2, p2: Vec2, c: Color) -> (out: RenderingDirective)
        requires
            self.building(),
        ensures
            out == RenderingDirective::DrawLine(p1, p2, c),
    {
        RenderingDirective::DrawLine(p1, p2, c)
    }

    /// The directive that fills the block of size `s` anchored at `p`.
    pub fn draw_rect(&self, p: Vec2, s: Vec2, c: Color) -> (out: RenderingDirective)
        requires
            self.building(),
        ensures
            out == RenderingDirective::DrawRect(p, s, c),
    {
        RenderingDirective::DrawRect(p, s, c)
    }

    /// The directive that draws the four sides of the block of size `s`
    /// anchored at `p`.
    pub fn draw_rect_boundary(&self, p: Vec2, s: Vec2, c: Color) -> (out: RenderingDirective)
        requires
            self.building(),
        ensures
            out == RenderingDirective::DrawRectBoudary(p, s, c),
    {
        RenderingDirective::DrawRectBoudary(p, s, c)
    }

    /// The directive that draws the outline of the ellipse around `c` that is
    /// inscribed in a box of the size `s`.
    pub fn draw_ellipse_boundary(&self, c: Vec2, s: Vec2, col: Color) -> (out: RenderingDirective)
        requires
            self.building(),
        ensures
            out == RenderingDirective::DrawEllipseBoudary(c, s, col),
    {
        RenderingDirective::DrawEllipseBoudary(c, s, col)
    }

    /// The directive that sets the pixel at `p` to `c`.
    pub fn draw_point(&self, p: Vec2, c: Color) -> (out: RenderingDirective)
        requires
            self.building(),
        ensures
            out == RenderingDirective::DrawPoint(p, c),
    {
        RenderingDirective::DrawPoint(p, c)
    }

    /// Gives up the drawing side. Gives the directive that ends the
    /// renderer's worker.
    pub fn exit(self) -> (out: RenderingDirective)
        ensures
            out == RenderingDirective::Stop,
    {
        RenderingDirective::Stop
    }
}

} // verus!
