//! Colors and the canvas they are drawn on.

use vstd::prelude::*;
use crate::ellipse::{four, mirrored, trunc_div, Ellipse, EllipseCursor};
use crate::line::{Line, LineCursor};
use crate::math::Vec2;
use crate::numeric::{decimal_digits, push_decimal};

verus! {

/// A 24-bit color.
#[derive(Clone, Copy, Debug, PartialEq, Eq, Structural)]
pub struct Color {
    pub r: u8,
    pub g: u8,
    pub b: u8,
}

impl Color {
    /// Black, the color of a fresh canvas and of every position outside one.
    pub open spec fn spec_black() -> Color {
        Color { r: 0, g: 0, b: 0 }
    }

    /// The color that `0xRRGGBB` names; bits above the low 24 are ignored.
    pub open spec fn spec_hex(h: u32) -> Color {
        Color {
            r: ((h as int / 0x10000) % 0x100) as u8,
            g: ((h as int / 0x100) % 0x100) as u8,
            b: (h as int % 0x100) as u8,
        }
    }

    /// Black: `0x000000`.
    #[verifier::when_used_as_spec(spec_black)]
    pub fn black() -> (c: Self)
        ensures
            c == Self::spec_black(),
    {
        Color { r: 0, g: 0, b: 0 }
    }

    /// The color with the given components.
    pub fn rgb(r: u8, g: u8, b: u8) -> (c: Self)
        ensures
            c == (Color { r, g, b }),
    {
        Color { r, g, b }
    }

    /// The color written as `0xRRGGBB`.
    #[verifier::when_used_as_spec(spec_hex)]
    pub fn hex(h: u32) -> (c: Self)
        ensures
            c == Self::spec_hex(h),
    {
        let r: u32 = (h / 0x10000) % 0x100;
        let g: u32 = (h / 0x100) % 0x100;
        let b: u32 = h % 0x100;
        Color { r: r as u8, g: g as u8, b: b as u8 }
    }

    /// The escape sequence that selects this color: as the background where
    /// `background` is set, else as the foreground. It reads `ESC [ 48 ; 2 ;`
    /// or `ESC [ 38 ; 2 ;`, then the three components in decimal with `;`
    /// between them, then `m`.
    pub open spec fn escape_bytes(self, background: bool) -> Seq<u8> {
        seq![0x1bu8, 0x5b, if background { 0x34u8 } else { 0x33u8 }, 0x38, 0x3b, 0x32, 0x3b]
            + decimal_digits(self.r as nat) + seq![0x3bu8] + decimal_digits(self.g as nat)
            + seq![0x3bu8] + decimal_digits(self.b as nat) + seq![0x6du8]
    }

    /// Appends the escape sequence that selects this color to `out`.
    pub fn push_escape(&self, background: bool, out: &mut Vec<u8>)
        ensures
            final(out)@ == old(out)@ + self.escape_bytes(background),
    {
        out.push(0x1b);
        out.push(0x5b);
        out.push(if background { 0x34 } else { 0x33 });
        out.push(0x38);
        out.push(0x3b);
        out.push(0x32);
        out.push(0x3b);
        push_decimal(out, self.r as u32);
        out.push(0x3b);
        push_decimal(out, self.g as u32);
        out.push(0x3b);
        push_decimal(out, self.b as u32);
        out.push(0x6d);
        assert(out@ =~= old(out)@ + self.escape_bytes(background));
    }

    /// The escape sequence that selects this color.
    pub fn escape(&self, background: bool) -> (out: Vec<u8>)
        ensures
            out@ == self.escape_bytes(background),
    {
        let mut out: Vec<u8> = Vec::new();
        self.push_escape(background, &mut out);
        assert(out@ =~= self.escape_bytes(background));
        out
    }

    /// Reading the components of `hex(0xRRGGBB)` gives back `RR`, `GG` and `BB`.
    pub proof fn lemma_hex_round_trip(r: u8, g: u8, b: u8)
        ensures
            r * 0x10000 + g * 0x100 + b <= u32::MAX,
            Self::spec_hex((r * 0x10000 + g * 0x100 + b) as u32) == (Color { r, g, b }),
    {
    }
}

/// Position of cell `(x, y)` in the row-major storage of a grid `w` wide.
pub open spec fn cell_index(x: int, y: int, w: int) -> int {
    x + y * w
}

proof fn lemma_cell_index(x: int, y: int, w: int, h: int)
    requires
        0 <= x < w,
        0 <= y < h,
    ensures
        0 <= y * w <= cell_index(x, y, w) < w * h,
{
    assert(0 <= y * w) by (nonlinear_arith)
        requires
            0 <= y,
            0 <= w,
    ;
    assert((y + 1) * w <= h * w) by (nonlinear_arith)
        requires
            y + 1 <= h,
            0 <= w,
    ;
    assert((y + 1) * w == y * w + w) by (nonlinear_arith);
    assert(h * w == w * h) by (nonlinear_arith);
}

proof fn lemma_cell_index_distinct(x1: int, y1: int, x2: int, y2: int, w: int)
    requires
        0 <= x1 < w,
        0 <= x2 < w,
        x1 != x2 || y1 != y2,
    ensures
        cell_index(x1, y1, w) != cell_index(x2, y2, w),
{
    if y1 < y2 {
        assert(y1 * w + w <= y2 * w) by (nonlinear_arith)
            requires
                y1 + 1 <= y2,
                0 <= w,
        ;
    } else if y2 < y1 {
        assert(y2 * w + w <= y1 * w) by (nonlinear_arith)
            requires
                y2 + 1 <= y1,
                0 <= w,
        ;
    }
}

/// Whether `v` is one of the coordinates that a span of signed length `s`
/// covers from its anchor `p`: `p` and upward for a positive length, `p` and
/// downward for a negative one, none for zero.
pub open spec fn in_span(v: int, p: int, s: int) -> bool {
    if s > 0 {
        p <= v < p + s
    } else {
        p + s < v <= p
    }
}

/// The cells of the block of signed size `s` anchored at `p`.
pub open spec fn rect_points(p: Vec2, s: Vec2) -> Set<(int, int)> {
    Set::new(
        |q: (int, int)|
            in_span(q.0, p.x as int, s.x as int) && in_span(q.1, p.y as int, s.y as int),
    )
}

/// Whether cell `q` comes before `(x, y)` when rows are walked top to bottom
/// and each row left to right.
pub open spec fn row_major_before(q: (int, int), x: int, y: int) -> bool {
    q.1 < y || (q.1 == y && q.0 < x)
}

/// The cells of the block that come before `(x, y)`.
pub open spec fn block_before(p: Vec2, s: Vec2, x: int, y: int) -> Set<(int, int)> {
    Set::new(|q: (int, int)| rect_points(p, s).contains(q) && row_major_before(q, x, y))
}

/// The part of a span that lies in `0..limit`, as a half-open range.
fn clip_span(p: i32, s: i32, limit: i64) -> (r: (i64, i64))
    requires
        0 <= limit <= i32::MAX,
    ensures
        0 <= r.0 <= r.1 <= limit,
        forall|v: int| 0 <= v < limit ==> (r.0 <= v < r.1 <==> in_span(v, p as int, s as int)),
{
    let (lo, hi): (i64, i64) = if s > 0 {
        (p as i64, p as i64 + s as i64)
    } else {
        (p as i64 + s as i64 + 1, p as i64 + 1)
    };
    let lo = if lo < 0 {
        0
    } else if lo > limit {
        limit
    } else {
        lo
    };
    let hi = if hi > limit {
        limit
    } else if hi < lo {
        lo
    } else {
        hi
    };
    (lo, hi)
}

// Powers of two that bound the arithmetic of the line and of the ellipse.
const TWO_30: i128 = 0x4000_0000;

const TWO_32: i64 = 0x1_0000_0000;

const TWO_60: i128 = 0x1000_0000_0000_0000;

const TWO_62: i128 = 0x4000_0000_0000_0000;

const TWO_90: i128 = 0x400_0000_0000_0000_0000_0000;

const TWO_91: i128 = 0x800_0000_0000_0000_0000_0000;

const TWO_93: i128 = 0x2000_0000_0000_0000_0000_0000;

const TWO_125: i128 = 0x2000_0000_0000_0000_0000_0000_0000_0000;

/// `n` divided by the small positive `d`, rounded toward zero.
fn div_toward_zero(n: i128, d: i128) -> (q: i128)
    requires
        0 < d <= 4,
        -TWO_125 <= n <= TWO_125,
    ensures
        q == trunc_div(n as int, d as int),
{
    if n >= 0 {
        n / d
    } else {
        -((-n) / d)
    }
}

/// A grid of colors, stored row by row.
pub struct Image {
    data: Vec<Color>,
    size: Vec2,
}

impl Image {
    /// The stored cells are exactly those of a `width` by `height` grid.
    pub closed spec fn wf(&self) -> bool {
        &&& self.size.x >= 0
        &&& self.size.y >= 0
        &&& self.data.len() == self.size.x * self.size.y
    }

    /// Width in pixels.
    pub closed spec fn width(&self) -> int {
        self.size.x as int
    }

    /// Height in pixels.
    pub closed spec fn height(&self) -> int {
        self.size.y as int
    }

    /// Whether `(x, y)` names a cell of the canvas.
    pub open spec fn in_range(&self, x: int, y: int) -> bool {
        0 <= x < self.width() && 0 <= y < self.height()
    }

    /// The color stored for the cell `(x, y)` of the canvas.
    pub closed spec fn cell(&self, x: int, y: int) -> Color {
        self.data@[cell_index(x, y, self.size.x as int)]
    }

    /// The color at `(x, y)`: that of the cell, and black outside the canvas.
    pub open spec fn at(&self, x: int, y: int) -> Color {
        if self.in_range(x, y) {
            self.cell(x, y)
        } else {
            Color::black()
        }
    }

    /// Every cell of the canvas shows `c`.
    pub open spec fn all(&self, c: Color) -> bool {
        forall|x: int, y: int| self.in_range(x, y) ==> #[trigger] self.at(x, y) == c
    }

    /// `self` is `before` with the cells of `pts` that lie on the canvas set
    /// to `c`, and nothing else changed.
    pub open spec fn painted(&self, before: &Image, pts: Set<(int, int)>, c: Color) -> bool {
        &&& self.wf()
        &&& self.width() == before.width()
        &&& self.height() == before.height()
        &&& forall|x: int, y: int|
            #[trigger] self.at(x, y) == if pts.contains((x, y)) && before.in_range(x, y) {
                c
            } else {
                before.at(x, y)
            }
    }

    /// A canvas is at most as wide and as high as a position can say.
    pub proof fn lemma_size_bounds(&self)
        requires
            self.wf(),
        ensures
            0 <= self.width() <= i32::MAX,
            0 <= self.height() <= i32::MAX,
    {
    }

    /// Reading outside the canvas gives black.
    pub proof fn lemma_outside_is_black(&self, x: int, y: int)
        requires
            !self.in_range(x, y),
        ensures
            self.at(x, y) == Color::black(),
    {
    }

    /// What `point` leaves behind. A cell of the canvas reads back as the color
    /// written to it, and every other cell as before. A write outside the
    /// canvas changes no cell, and its place reads black.
    pub proof fn lemma_point_then_read(&self, before: &Image, x: int, y: int, c: Color)
        requires
            self.painted(before, set![(x, y)], c),
        ensures
            before.in_range(x, y) ==> self.at(x, y) == c,
            forall|u: int, v: int| u != x || v != y ==> self.at(u, v) == before.at(u, v),
            !before.in_range(x, y) ==> self.at(x, y) == Color::black() && forall|u: int, v: int|
                self.at(u, v) == before.at(u, v),
    {
        assert forall|u: int, v: int| u != x || v != y implies self.at(u, v) == before.at(
            u,
            v,
        ) by {
            assert(!set![(x, y)].contains((u, v)));
        }
        if !before.in_range(x, y) {
            assert forall|u: int, v: int| self.at(u, v) == before.at(u, v) by {
                let _ = self.at(u, v);
            }
        }
    }

    /// Painting the cells of `first` and then those of `second` in one color
    /// is painting the cells of both.
    pub proof fn lemma_painted_twice(
        &self,
        mid: &Image,
        before: &Image,
        first: Set<(int, int)>,
        second: Set<(int, int)>,
        both: Set<(int, int)>,
        c: Color,
    )
        requires
            mid.painted(before, first, c),
            self.painted(mid, second, c),
            forall|x: int, y: int|
                before.in_range(x, y) ==> (both.contains((x, y)) <==> first.contains((x, y))
                    || second.contains((x, y))),
        ensures
            self.painted(before, both, c),
    {
        assert forall|x: int, y: int|
            #[trigger] self.at(x, y) == if both.contains((x, y)) && before.in_range(x, y) {
                c
            } else {
                before.at(x, y)
            } by {
            let _ = mid.at(x, y);
            if before.in_range(x, y) {
                assert(both.contains((x, y)) <==> first.contains((x, y)) || second.contains(
                    (x, y),
                ));
            }
        }
    }

    /// Of the cells that are painted, only those on the canvas count.
    pub proof fn lemma_painted_on_canvas(
        &self,
        before: &Image,
        pts: Set<(int, int)>,
        other: Set<(int, int)>,
        c: Color,
    )
        requires
            self.painted(before, pts, c),
            forall|x: int, y: int|
                before.in_range(x, y) ==> (pts.contains((x, y)) <==> other.contains((x, y))),
        ensures
            self.painted(before, other, c),
    {
        assert forall|x: int, y: int|
            #[trigger] self.at(x, y) == if other.contains((x, y)) && before.in_range(x, y) {
                c
            } else {
                before.at(x, y)
            } by {
            if before.in_range(x, y) {
                assert(pts.contains((x, y)) <==> other.contains((x, y)));
            }
        }
    }

    /// A black canvas `w` wide and `h` high.
    pub fn new(w: usize, h: usize) -> (img: Self)
        requires
            w <= i32::MAX,
            h <= i32::MAX,
            w * h <= usize::MAX,
        ensures
            img.wf(),
            img.width() == w,
            img.height() == h,
            img.all(Color::black()),
    {
        let n: usize = w * h;
        let mut data: Vec<Color> = Vec::new();
        let mut i: usize = 0;
        while i < n
            invariant
                i <= n,
                data.len() == i,
                forall|k: int| 0 <= k < i ==> data@[k] == Color::black(),
            decreases n - i,
        {
            data.push(Color::black());
            i = i + 1;
        }
        let img = Image { data, size: Vec2::new(w as i32, h as i32) };
        proof {
            assert forall|x: int, y: int| img.in_range(x, y) implies #[trigger] img.at(x, y)
                == Color::black() by {
                lemma_cell_index(x, y, w as int, h as int);
            }
        }
        img
    }

    /// Width and height.
    pub fn size(&self) -> (s: Vec2)
        requires
            self.wf(),
        ensures
            s.x == self.width(),
            s.y == self.height(),
            s.x >= 0,
            s.y >= 0,
    {
        self.size
    }

    /// Makes the canvas `w` wide and `h` high, every cell black.
    pub fn resize(&mut self, w: usize, h: usize)
        requires
            w <= i32::MAX,
            h <= i32::MAX,
            w * h <= usize::MAX,
        ensures
            final(self).wf(),
            final(self).width() == w,
            final(self).height() == h,
            final(self).all(Color::black()),
    {
        *self = Image::new(w, h);
    }

    /// Whether `p` lies outside the canvas.
    pub fn out_of_range(&self, p: Vec2) -> (out: bool)
        requires
            self.wf(),
        ensures
            out == !self.in_range(p.x as int, p.y as int),
    {
        p.x < 0 || p.y < 0 || p.x >= self.size.x || p.y >= self.size.y
    }

    /// The color at `p`; black where `p` lies outside the canvas.
    pub fn get(&self, p: Vec2) -> (c: Color)
        requires
            self.wf(),
        ensures
            c == self.at(p.x as int, p.y as int),
    {
        self.read(p.x as i64, p.y as i64)
    }

    /// The color at `(x, y)`, for coordinates of any size.
    fn read(&self, x: i64, y: i64) -> (c: Color)
        requires
            self.wf(),
        ensures
            c == self.at(x as int, y as int),
    {
        if x >= 0 && y >= 0 && x < self.size.x as i64 && y < self.size.y as i64 {
            proof {
                lemma_cell_index(x as int, y as int, self.size.x as int, self.size.y as int);
            }
            let w: usize = self.size.x as usize;
            let i: usize = x as usize + y as usize * w;
            self.data[i]
        } else {
            Color::black()
        }
    }

    /// Sets the cell at `(x, y)` to `c`, for coordinates of any size; does
    /// nothing where they lie outside the canvas.
    fn plot(&mut self, x: i64, y: i64, c: Color)
        requires
            old(self).wf(),
        ensures
            final(self).painted(old(self), set![(x as int, y as int)], c),
    {
        if x >= 0 && y >= 0 && x < self.size.x as i64 && y < self.size.y as i64 {
            proof {
                lemma_cell_index(x as int, y as int, self.size.x as int, self.size.y as int);
            }
            let w: usize = self.size.x as usize;
            let i: usize = x as usize + y as usize * w;
            self.data.set(i, c);
            proof {
                assert forall|a: int, b: int|
                    #[trigger] self.at(a, b) == if set![(x as int, y as int)].contains((a, b))
                        && old(self).in_range(a, b) {
                        c
                    } else {
                        old(self).at(a, b)
                    } by {
                    if old(self).in_range(a, b) && (a != x || b != y) {
                        lemma_cell_index(a, b, self.size.x as int, self.size.y as int);
                        lemma_cell_index_distinct(a, b, x as int, y as int, self.size.x as int);
                    }
                }
            }
        }
    }

    /// Sets the cell at `p` to `c`; does nothing where `p` lies outside the
    /// canvas.
    pub fn point(&mut self, p: Vec2, c: Color)
        requires
            old(self).wf(),
        ensures
            final(self).painted(old(self), set![(p.x as int, p.y as int)], c),
    {
        self.plot(p.x as i64, p.y as i64, c);
    }

    /// The line from `(x1, y1)` to `(x2, y2)` as it runs on this canvas.
    pub open spec fn line_on(&self, x1: int, y1: int, x2: int, y2: int) -> Line {
        Line { x1, y1, x2, y2, w: self.width(), h: self.height() }
    }

    /// Draws the line between two cells whose coordinates may lie far outside
    /// the range of a position.
    fn trace(&mut self, x1: i64, y1: i64, x2: i64, y2: i64, c: Color)
        requires
            old(self).wf(),
            -TWO_32 <= x1 <= TWO_32,
            -TWO_32 <= y1 <= TWO_32,
            -TWO_32 <= x2 <= TWO_32,
            -TWO_32 <= y2 <= TWO_32,
        ensures
            final(self).painted(
                old(self),
                old(self).line_on(x1 as int, y1 as int, x2 as int, y2 as int).points(),
                c,
            ),
            old(self).in_range(x1 as int, y1 as int) ==> final(self).at(x1 as int, y1 as int) == c,
            old(self).in_range(x2 as int, y2 as int) ==> final(self).at(x2 as int, y2 as int) == c,
    {
        let ghost l = self.line_on(x1 as int, y1 as int, x2 as int, y2 as int);
        let w: i64 = self.size.x as i64;
        let h: i64 = self.size.y as i64;
        let dx: i64 = if x2 >= x1 {
            x2 - x1
        } else {
            x1 - x2
        };
        let dy: i64 = if y2 >= y1 {
            y1 - y2
        } else {
            y2 - y1
        };
        let sx: i64 = if x1 < x2 {
            1
        } else {
            -1
        };
        let sy: i64 = if y1 < y2 {
            1
        } else {
            -1
        };
        let mut x: i64 = x1;
        let mut y: i64 = y1;
        let mut err: i64 = dx + dy;
        // how many steps are taken, in all, along x and along y
        let ghost n: nat = 0;
        let ghost i: int = 0;
        let ghost j: int = 0;
        self.plot(x, y, c);
        proof {
            assert forall|a: int, b: int|
                set![(x1 as int, y1 as int)].contains((a, b)) <==> l.prefix(0).contains((a, b)) by {
                l.lemma_prefix_start((a, b));
            }
            self.lemma_painted_on_canvas(old(self), set![(x1 as int, y1 as int)], l.prefix(0), c);
            l.lemma_on_track_start();
        }
        while (x != x2 || y != y2) && ((x < w && sx > 0) || (x >= 0 && sx < 0)) && ((y < h && sy
            > 0) || (y >= 0 && sy < 0))
            invariant
                l == old(self).line_on(x1 as int, y1 as int, x2 as int, y2 as int),
                w == l.w,
                h == l.h,
                dx == l.dx(),
                dy == l.dy(),
                sx == l.sx(),
                sy == l.sy(),
                -TWO_32 <= x1 <= TWO_32,
                -TWO_32 <= y1 <= TWO_32,
                -TWO_32 <= x2 <= TWO_32,
                -TWO_32 <= y2 <= TWO_32,
                l.cursor(n) == (LineCursor { x: x as int, y: y as int, err: err as int }),
                l.on_track(n, i, j),
                l.reaches(n),
                self.painted(old(self), l.prefix(n), c),
            decreases (dx - i) + (-dy - j),
        {
            proof {
                l.lemma_on_track_step(n, i, j);
            }
            let e2: i64 = 2 * err;
            if e2 >= dy {
                err = err + dy;
                x = x + sx;
                proof {
                    i = i + 1;
                }
            }
            if e2 <= dx {
                err = err + dx;
                y = y + sy;
                proof {
                    j = j + 1;
                }
            }
            let ghost mid = *self;
            self.plot(x, y, c);
            proof {
                assert forall|m: nat| m < n + 1 implies l.goes_on(#[trigger] l.cursor(m)) by {
                    if m == n {
                    }
                }
                let cell = set![(x as int, y as int)];
                assert forall|a: int, b: int|
                    l.prefix(n + 1).contains((a, b)) <==> l.prefix(n).contains((a, b))
                        || cell.contains((a, b)) by {
                    l.lemma_prefix_step(n, (a, b));
                }
                self.lemma_painted_twice(&mid, old(self), l.prefix(n), cell, l.prefix(n + 1), c);
                n = n + 1;
            }
        }
        proof {
            l.lemma_points_when_stopped(n);
            l.lemma_starts_at_first();
            if old(self).in_range(x2 as int, y2 as int) {
                l.lemma_ends_at_last();
            }
        }
    }

    /// Draws the line from `p1` to `p2` in `c`. The line is stepped from `p1`
    /// on, and the stepping stops early where it has left the canvas on the
    /// side that it moves to. Both ends are drawn where they lie on the canvas.
    pub fn line(&mut self, p1: Vec2, p2: Vec2, c: Color)
        requires
            old(self).wf(),
        ensures
            final(self).painted(
                old(self),
                old(self).line_on(p1.x as int, p1.y as int, p2.x as int, p2.y as int).points(),
                c,
            ),
            old(self).in_range(p1.x as int, p1.y as int) ==> final(self).at(
                p1.x as int,
                p1.y as int,
            ) == c,
            old(self).in_range(p2.x as int, p2.y as int) ==> final(self).at(
                p2.x as int,
                p2.y as int,
            ) == c,
    {
        self.trace(p1.x as i64, p1.y as i64, p2.x as i64, p2.y as i64, c);
    }

    /// The cells of the four sides of the block of signed size `s` anchored at
    /// `p`: the lines from corner to corner, each drawn from the end of the one
    /// before it, starting at `p` along the top.
    pub open spec fn rect_boundary_points(&self, p: Vec2, s: Vec2) -> Set<(int, int)> {
        let x0 = p.x as int;
        let y0 = p.y as int;
        let x1 = p.x + s.x;
        let y1 = p.y + s.y;
        self.line_on(x0, y0, x1, y0).points().union(self.line_on(x1, y0, x1, y1).points()).union(
            self.line_on(x1, y1, x0, y1).points(),
        ).union(self.line_on(x0, y1, x0, y0).points())
    }

    /// Draws the four sides of the block of signed size `s` anchored at `p`.
    pub fn rect_boudary(&mut self, p: Vec2, s: Vec2, c: Color)
        requires
            old(self).wf(),
        ensures
            final(self).painted(old(self), old(self).rect_boundary_points(p, s), c),
    {
        let x0: i64 = p.x as i64;
        let y0: i64 = p.y as i64;
        let x1: i64 = p.x as i64 + s.x as i64;
        let y1: i64 = p.y as i64 + s.y as i64;
        let ghost top = self.line_on(x0 as int, y0 as int, x1 as int, y0 as int).points();
        let ghost right = self.line_on(x1 as int, y0 as int, x1 as int, y1 as int).points();
        let ghost bottom = self.line_on(x1 as int, y1 as int, x0 as int, y1 as int).points();
        let ghost left = self.line_on(x0 as int, y1 as int, x0 as int, y0 as int).points();
        self.trace(x0, y0, x1, y0, c);
        let ghost one = *self;
        self.trace(x1, y0, x1, y1, c);
        let ghost two = *self;
        self.trace(x1, y1, x0, y1, c);
        let ghost three = *self;
        self.trace(x0, y1, x0, y0, c);
        proof {
            two.lemma_painted_twice(&one, old(self), top, right, top.union(right), c);
            three.lemma_painted_twice(
                &two,
                old(self),
                top.union(right),
                bottom,
                top.union(right).union(bottom),
                c,
            );
            self.lemma_painted_twice(
                &three,
                old(self),
                top.union(right).union(bottom),
                left,
                old(self).rect_boundary_points(p, s),
                c,
            );
        }
    }

    /// Sets the cell at `(x, y)` to `c`, for coordinates far outside the range
    /// of a position.
    fn plot_far(&mut self, x: i128, y: i128, c: Color)
        requires
            old(self).wf(),
        ensures
            final(self).painted(old(self), set![(x as int, y as int)], c),
    {
        if x >= 0 && y >= 0 && x < self.size.x as i128 && y < self.size.y as i128 {
            self.plot(x as i64, y as i64, c);
        }
    }

    /// Sets the four cells that lie `(x, y)` from the center `(cx, cy)` and
    /// mirror one another in its axes.
    fn plot_four(&mut self, cx: i64, cy: i64, x: i128, y: i128, c: Color)
        requires
            old(self).wf(),
            -TWO_32 <= cx <= TWO_32,
            -TWO_32 <= cy <= TWO_32,
            -TWO_125 <= x <= TWO_125,
            -TWO_125 <= y <= TWO_125,
        ensures
            final(self).painted(old(self), four(cx as int, cy as int, x as int, y as int), c),
    {
        let ghost a = set![(cx + x, cy + y)];
        let ghost b = set![(cx + x, cy - y)];
        let ghost d = set![(cx - x, cy + y)];
        let ghost e = set![(cx - x, cy - y)];
        self.plot_far(cx as i128 + x, cy as i128 + y, c);
        let ghost one = *self;
        self.plot_far(cx as i128 + x, cy as i128 - y, c);
        let ghost two = *self;
        self.plot_far(cx as i128 - x, cy as i128 + y, c);
        let ghost three = *self;
        self.plot_far(cx as i128 - x, cy as i128 - y, c);
        proof {
            two.lemma_painted_twice(&one, old(self), a, b, a.union(b), c);
            three.lemma_painted_twice(&two, old(self), a.union(b), d, a.union(b).union(d), c);
            self.lemma_painted_twice(
                &three,
                old(self),
                a.union(b).union(d),
                e,
                four(cx as int, cy as int, x as int, y as int),
                c,
            );
        }
    }

    /// Sets the four cells that lie `pos` from `center` and mirror one another
    /// in its axes, where they lie on the canvas.
    pub fn plot_ellipse_points(&mut self, center: Vec2, pos: Vec2, c: Color)
        requires
            old(self).wf(),
        ensures
            final(self).painted(
                old(self),
                four(center.x as int, center.y as int, pos.x as int, pos.y as int),
                c,
            ),
    {
        self.plot_four(center.x as i64, center.y as i64, pos.x as i128, pos.y as i128, c);
    }

    /// Draws the outline of the ellipse around `center` that is inscribed in a
    /// box of the size `size`, by the midpoint algorithm: one quarter is
    /// stepped through, first where the outline is flatter than a diagonal,
    /// then where it is steeper, and each cell is drawn with its three mirror
    /// images.
    pub fn ellipse_boundary(&mut self, center: Vec2, size: Vec2, c: Color)
        requires
            old(self).wf(),
        ensures
            final(self).painted(
                old(self),
                Ellipse::inscribed(size.x as int, size.y as int).points(
                    center.x as int,
                    center.y as int,
                ),
                c,
            ),
    {
        let cx: i64 = center.x as i64;
        let cy: i64 = center.y as i64;
        let a: i128 = div_toward_zero(size.x as i128, 2);
        let b: i128 = div_toward_zero(size.y as i128, 2);
        let ghost e = Ellipse { a: a as int, b: b as int };
        assert(e == Ellipse::inscribed(size.x as int, size.y as int));
        assert(0 <= a * a <= TWO_60 && 0 <= b * b <= TWO_60) by (nonlinear_arith)
            requires
                -TWO_30 <= a <= TWO_30,
                -TWO_30 <= b <= TWO_30,
        ;
        let aa: i128 = a * a;
        let bb: i128 = b * b;
        assert(-TWO_93 <= aa * (1 - 4 * b) <= TWO_93 && -TWO_91 <= aa * (b - 1) <= TWO_91
            && -TWO_90 <= aa * b <= TWO_90 && aa * (b - 1) == aa * b - aa) by (nonlinear_arith)
            requires
                0 <= aa <= TWO_60,
                -TWO_30 <= b <= TWO_30,
        ;
        let mut x: i128 = 0;
        let mut y: i128 = b;
        let mut p: i128 = bb + div_toward_zero(aa * (1 - 4 * b) - 2, 4);
        let mut dpe: i128 = 3 * bb;
        let mut dpse: i128 = dpe - 2 * (aa * (b - 1));
        let d2pe: i128 = 2 * bb;
        let d2pse: i128 = d2pe + 2 * aa;
        let limit: i128 = 2 * aa + 3 * bb;
        // how many steps are taken, and the products that the bounds rest on
        let ghost n: nat = 0;
        let ghost bbx: int = 0;
        let ghost aay: int = aa * b;
        assert(bb * 0 == 0) by (nonlinear_arith);
        self.plot_four(cx, cy, x, y, c);
        proof {
            assert forall|u: int, v: int|
                four(cx as int, cy as int, 0, b as int).contains((u, v)) <==> mirrored(
                    e.prefix_first(0),
                    cx as int,
                    cy as int,
                ).contains((u, v)) by {
                e.lemma_mirrored_start(cx as int, cy as int, (u, v));
            }
            self.lemma_painted_on_canvas(
                old(self),
                four(cx as int, cy as int, 0, b as int),
                mirrored(e.prefix_first(0), cx as int, cy as int),
                c,
            );
        }
        // In this region b * b * x < a * a * y: the cursor stays above the
        // center, and the products stay small.
        while dpse < limit
            invariant
                e == (Ellipse { a: a as int, b: b as int }),
                cx == center.x,
                cy == center.y,
                -TWO_30 <= a <= TWO_30,
                -TWO_30 <= b <= TWO_30,
                aa == a * a,
                bb == b * b,
                0 <= aa <= TWO_60,
                0 <= bb <= TWO_60,
                d2pe == 2 * bb,
                d2pse == 2 * bb + 2 * aa,
                limit == 2 * aa + 3 * bb,
                limit == e.limit(),
                e.first(n) == (EllipseCursor {
                    x: x as int,
                    y: y as int,
                    p: p as int,
                    dpe: dpe as int,
                    dpse: dpse as int,
                }),
                e.reaches_first(n),
                self.painted(old(self), mirrored(e.prefix_first(n), cx as int, cy as int), c),
                bbx == bb * x,
                aay == aa * y,
                0 <= x <= bbx <= 2 * TWO_90,
                -TWO_90 <= aay <= TWO_90,
                -TWO_30 <= y <= b,
                dpe == 3 * bb + 2 * bbx,
                dpse == 3 * bb + 2 * aa + 2 * bbx - 2 * aay,
                -TWO_93 <= p <= TWO_93 * (b - y + 1),
            decreases
                    (if dpse < limit {
                        limit - dpse
                    } else {
                        0
                    }),
        {
            let ghost before = e.first(n);
            assert(e.in_first(before));
            assert(bbx < aay);
            assert(y >= 1) by (nonlinear_arith)
                requires
                    aay == aa * y,
                    aay > 0,
                    aa >= 0,
            ;
            assert(bb >= 1) by (nonlinear_arith)
                requires
                    bb == b * b,
                    b >= 1,
            ;
            assert(bb * (x + 1) == bb * x + bb && aa * (y - 1) == aa * y - aa) by (nonlinear_arith);
            if p < 0 {
                p = p + dpe;
                dpe = dpe + d2pe;
                dpse = dpse + d2pe;
            } else {
                p = p + dpse;
                dpe = dpe + d2pe;
                dpse = dpse + d2pse;
                y = y - 1;
                proof {
                    aay = aay - aa;
                }
            }
            x = x + 1;
            proof {
                bbx = bbx + bb;
            }
            let ghost mid = *self;
            self.plot_four(cx, cy, x, y, c);
            proof {
                assert(e.first(n + 1) == e.step_first(before));
                assert forall|m: nat| m < n + 1 implies e.in_first(#[trigger] e.first(m)) by {
                    if m == n {
                    }
                }
                let done = mirrored(e.prefix_first(n), cx as int, cy as int);
                let cells = four(cx as int, cy as int, x as int, y as int);
                let more = mirrored(e.prefix_first(n + 1), cx as int, cy as int);
                assert forall|u: int, v: int|
                    more.contains((u, v)) <==> done.contains((u, v)) || cells.contains((u, v)) by {
                    e.lemma_mirrored_first_step(cx as int, cy as int, n, (u, v));
                }
                self.lemma_painted_twice(&mid, old(self), done, cells, more, c);
                n = n + 1;
            }
        }
        assert(-TWO_93 <= aa * (4 * y - 3) <= TWO_93 && -TWO_93 <= aa * (3 - 2 * y) <= TWO_93)
            by (nonlinear_arith)
            requires
                0 <= aa <= TWO_60,
                -TWO_30 <= y <= TWO_30,
        ;
        assert(bb * (4 * x + 3) == 4 * (bb * x) + 3 * bb) by (nonlinear_arith);
        p = p - div_toward_zero(aa * (4 * y - 3) + bb * (4 * x + 3) + 2, 4);
        dpse = 2 * bb + 3 * aa;
        let dps: i128 = aa * (3 - 2 * y);
        let d2ps: i128 = 2 * aa;
        let ghost m: nat = 0;
        let ghost x0 = x;
        let ghost y0 = y;
        proof {
            assert(e.ends_first(n));
            assert(e.dps(e.first(n)) == dps);
            assert(e.second(n, 0) == e.turn(e.first(n)));
            assert forall|u: int, v: int|
                mirrored(e.prefix_first(n), cx as int, cy as int).contains((u, v)) <==> mirrored(
                    e.so_far(n, 0),
                    cx as int,
                    cy as int,
                ).contains((u, v)) by {
                e.lemma_mirrored_turn(cx as int, cy as int, n, (u, v));
            }
            self.lemma_painted_on_canvas(
                old(self),
                mirrored(e.prefix_first(n), cx as int, cy as int),
                mirrored(e.so_far(n, 0), cx as int, cy as int),
                c,
            );
        }
        while y > 0
            invariant
                e == (Ellipse { a: a as int, b: b as int }),
                cx == center.x,
                cy == center.y,
                aa == a * a,
                bb == b * b,
                0 <= aa <= TWO_60,
                0 <= bb <= TWO_60,
                d2ps == 2 * aa,
                d2pse == 2 * bb + 2 * aa,
                dps == e.dps(e.first(n)),
                -TWO_93 <= dps <= TWO_93,
                e.second(n, m) == (EllipseCursor {
                    x: x as int,
                    y: y as int,
                    p: p as int,
                    dpe: dpe as int,
                    dpse: dpse as int,
                }),
                e.reaches_second(n, m),
                self.painted(old(self), mirrored(e.so_far(n, m), cx as int, cy as int), c),
                y == y0 - m,
                -TWO_30 <= y0 <= TWO_30,
                -TWO_30 <= y,
                0 <= x0 <= 2 * TWO_90,
                x0 <= x <= x0 + m,
                m <= TWO_30,
                0 <= dpse <= 5 * TWO_60 + m * TWO_62,
                -TWO_125 - m * TWO_93 <= p <= TWO_125 + m * TWO_93,
            decreases y,
        {
            let ghost before = e.second(n, m);
            if p > 0 {
                p = p + dps;
                dpse = dpse + d2ps;
            } else {
                p = p + dpse;
                dpse = dpse + d2pse;
                x = x + 1;
            }
            y = y - 1;
            let ghost mid = *self;
            self.plot_four(cx, cy, x, y, c);
            proof {
                assert(e.second(n, m + 1) == e.step_second(e.dps(e.first(n)), before));
                assert forall|k: nat| k < m + 1 implies (#[trigger] e.second(n, k)).y > 0 by {
                    if k == m {
                    }
                }
                let done = mirrored(e.so_far(n, m), cx as int, cy as int);
                let cells = four(cx as int, cy as int, x as int, y as int);
                let more = mirrored(e.so_far(n, m + 1), cx as int, cy as int);
                assert forall|u: int, v: int|
                    more.contains((u, v)) <==> done.contains((u, v)) || cells.contains((u, v)) by {
                    e.lemma_mirrored_second_step(cx as int, cy as int, n, m, (u, v));
                }
                self.lemma_painted_twice(&mid, old(self), done, cells, more, c);
                m = m + 1;
            }
        }
        proof {
            e.lemma_quarter_when_stopped(n, m);
        }
    }

    /// Fills the block of signed size `s` anchored at `p` with `c`, as far as
    /// it lies on the canvas. A negative component of `s` makes the block
    /// extend from the anchor to the left, or upward.
    pub fn rect(&mut self, p: Vec2, s: Vec2, c: Color)
        requires
            old(self).wf(),
        ensures
            final(self).painted(old(self), rect_points(p, s), c),
    {
        let w: i64 = self.size.x as i64;
        let h: i64 = self.size.y as i64;
        let (x_lo, x_hi) = clip_span(p.x, s.x, w);
        let (y_lo, y_hi) = clip_span(p.y, s.y, h);
        let mut y: i64 = y_lo;
        proof {
            self.lemma_painted_on_canvas(
                old(self),
                Set::empty(),
                block_before(p, s, x_lo as int, y as int),
                c,
            );
        }
        while y < y_hi
            invariant
                w == old(self).width(),
                h == old(self).height(),
                0 <= x_lo <= x_hi <= w,
                0 <= y_lo <= y <= y_hi <= h,
                forall|v: int|
                    0 <= v < w ==> (x_lo <= v < x_hi <==> in_span(v, p.x as int, s.x as int)),
                forall|v: int|
                    0 <= v < h ==> (y_lo <= v < y_hi <==> in_span(v, p.y as int, s.y as int)),
                self.painted(old(self), block_before(p, s, x_lo as int, y as int), c),
            decreases y_hi - y,
        {
            let mut x: i64 = x_lo;
            while x < x_hi
                invariant
                    w == old(self).width(),
                    h == old(self).height(),
                    0 <= x_lo <= x <= x_hi <= w,
                    0 <= y_lo <= y < y_hi <= h,
                    forall|v: int|
                        0 <= v < w ==> (x_lo <= v < x_hi <==> in_span(v, p.x as int, s.x as int)),
                    forall|v: int|
                        0 <= v < h ==> (y_lo <= v < y_hi <==> in_span(v, p.y as int, s.y as int)),
                    self.painted(old(self), block_before(p, s, x as int, y as int), c),
                decreases x_hi - x,
            {
                let ghost mid = *self;
                self.plot(x, y, c);
                proof {
                    self.lemma_painted_twice(
                        &mid,
                        old(self),
                        block_before(p, s, x as int, y as int),
                        set![(x as int, y as int)],
                        block_before(p, s, x + 1, y as int),
                        c,
                    );
                }
                x = x + 1;
            }
            proof {
                self.lemma_painted_on_canvas(
                    old(self),
                    block_before(p, s, x as int, y as int),
                    block_before(p, s, x_lo as int, y + 1),
                    c,
                );
            }
            y = y + 1;
        }
        proof {
            self.lemma_painted_on_canvas(
                old(self),
                block_before(p, s, x_lo as int, y as int),
                rect_points(p, s),
                c,
            );
        }
    }

    /// A canvas of the same size that shows the same colors.
    pub fn duplicate(&self) -> (copy: Self)
        requires
            self.wf(),
        ensures
            copy.wf(),
            copy.width() == self.width(),
            copy.height() == self.height(),
            forall|x: int, y: int| #[trigger] copy.at(x, y) == self.at(x, y),
    {
        let n: usize = self.data.len();
        let mut data: Vec<Color> = Vec::new();
        let mut i: usize = 0;
        while i < n
            invariant
                i <= n,
                n == self.data.len(),
                data.len() == i,
                forall|k: int| 0 <= k < i ==> data@[k] == self.data@[k],
            decreases n - i,
        {
            data.push(self.data[i]);
            i = i + 1;
        }
        let copy = Image { data, size: self.size };
        proof {
            assert forall|x: int, y: int| #[trigger] copy.at(x, y) == self.at(x, y) by {
                if self.in_range(x, y) {
                    lemma_cell_index(x, y, self.size.x as int, self.size.y as int);
                }
            }
        }
        copy
    }

    /// Sets every cell to `c`.
    pub fn clear(&mut self, c: Color)
        requires
            old(self).wf(),
        ensures
            final(self).wf(),
            final(self).width() == old(self).width(),
            final(self).height() == old(self).height(),
            final(self).all(c),
    {
        let n: usize = self.data.len();
        let mut i: usize = 0;
        while i < n
            invariant
                i <= n,
                n == self.data.len(),
                self.size == old(self).size,
                forall|k: int| 0 <= k < i ==> self.data@[k] == c,
            decreases n - i,
        {
            self.data.set(i, c);
            i = i + 1;
        }
        proof {
            assert forall|x: int, y: int| self.in_range(x, y) implies #[trigger] self.at(x, y)
                == c by {
                lemma_cell_index(x, y, self.size.x as int, self.size.y as int);
            }
        }
    }
}

} // verus!
