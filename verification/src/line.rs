//! The cells of a straight line, as integer Bresenham stepping visits them.

use vstd::prelude::*;

verus! {

/// A line from `(x1, y1)` to `(x2, y2)` on a canvas `w` wide and `h` high.
pub struct Line {
    pub x1: int,
    pub y1: int,
    pub x2: int,
    pub y2: int,
    pub w: int,
    pub h: int,
}

/// Where the stepping stands: the cell under the cursor and the error term.
pub struct LineCursor {
    pub x: int,
    pub y: int,
    pub err: int,
}

impl Line {
    /// Horizontal extent, not negative.
    pub open spec fn dx(self) -> int {
        if self.x2 >= self.x1 {
            self.x2 - self.x1
        } else {
            self.x1 - self.x2
        }
    }

    /// Vertical extent, negated: not positive.
    pub open spec fn dy(self) -> int {
        if self.y2 >= self.y1 {
            self.y1 - self.y2
        } else {
            self.y2 - self.y1
        }
    }

    /// Direction of the steps along x.
    pub open spec fn sx(self) -> int {
        if self.x1 < self.x2 {
            1
        } else {
            -1
        }
    }

    /// Direction of the steps along y.
    pub open spec fn sy(self) -> int {
        if self.y1 < self.y2 {
            1
        } else {
            -1
        }
    }

    /// The cursor before the first step.
    pub open spec fn start(self) -> LineCursor {
        LineCursor { x: self.x1, y: self.y1, err: self.dx() + self.dy() }
    }

    /// One step: along x where twice the error is at least `dy`, along y where
    /// it is at most `dx`, along both where both hold.
    pub open spec fn step(self, c: LineCursor) -> LineCursor {
        let along_x = 2 * c.err >= self.dy();
        let along_y = 2 * c.err <= self.dx();
        LineCursor {
            x: if along_x {
                c.x + self.sx()
            } else {
                c.x
            },
            y: if along_y {
                c.y + self.sy()
            } else {
                c.y
            },
            err: c.err + (if along_x {
                self.dy()
            } else {
                0
            }) + (if along_y {
                self.dx()
            } else {
                0
            }),
        }
    }

    /// The cursor after `n` steps.
    pub open spec fn cursor(self, n: nat) -> LineCursor
        decreases n,
    {
        if n == 0 {
            self.start()
        } else {
            self.step(self.cursor((n - 1) as nat))
        }
    }

    /// Whether another step is taken from `c`: the end is not reached, and the
    /// cursor has not left the canvas on the side it is moving to.
    pub open spec fn goes_on(self, c: LineCursor) -> bool {
        &&& c.x != self.x2 || c.y != self.y2
        &&& (c.x < self.w && self.sx() > 0) || (c.x >= 0 && self.sx() < 0)
        &&& (c.y < self.h && self.sy() > 0) || (c.y >= 0 && self.sy() < 0)
    }

    /// Whether the stepping gets as far as its `n`th step.
    pub open spec fn reaches(self, n: nat) -> bool {
        forall|m: nat| m < n ==> self.goes_on(#[trigger] self.cursor(m))
    }

    /// Whether the cursor stands on `q` after `n` steps.
    pub open spec fn visits(self, q: (int, int), n: nat) -> bool {
        q.0 == self.cursor(n).x && q.1 == self.cursor(n).y
    }

    /// The cells under the cursor during the first `n` steps.
    pub open spec fn prefix(self, n: nat) -> Set<(int, int)> {
        Set::new(|q: (int, int)| exists|m: nat| m <= n && #[trigger] self.visits(q, m))
    }

    /// All cells that the line visits.
    pub open spec fn points(self) -> Set<(int, int)> {
        Set::new(|q: (int, int)| exists|n: nat| self.reaches(n) && #[trigger] self.visits(q, n))
    }

    /// The first cell of a line is one of its cells.
    pub proof fn lemma_starts_at_first(self)
        ensures
            self.points().contains((self.x1, self.y1)),
    {
        assert(self.reaches(0));
        assert(self.visits((self.x1, self.y1), 0));
    }

    /// Before any step, the cursor has been on the first cell alone.
    pub proof fn lemma_prefix_start(self, q: (int, int))
        ensures
            self.prefix(0).contains(q) <==> q == (self.x1, self.y1),
    {
        assert(self.visits((self.x1, self.y1), 0));
        if self.prefix(0).contains(q) {
            let m = choose|m: nat| m <= 0 && #[trigger] self.visits(q, m);
            assert(m == 0);
        }
    }

    /// One more step adds the cell that it leads to.
    pub proof fn lemma_prefix_step(self, n: nat, q: (int, int))
        ensures
            self.prefix(n + 1).contains(q) <==> self.prefix(n).contains(q) || self.visits(
                q,
                n + 1,
            ),
    {
        if self.prefix(n + 1).contains(q) {
            let m = choose|m: nat| m <= n + 1 && #[trigger] self.visits(q, m);
            if m <= n {
                assert(self.prefix(n).contains(q));
            }
        }
        if self.prefix(n).contains(q) {
            let m = choose|m: nat| m <= n && #[trigger] self.visits(q, m);
            assert(m <= n + 1 && self.visits(q, m));
        }
        if self.visits(q, n + 1) {
            assert(self.prefix(n + 1).contains(q));
        }
    }

    /// Where the stepping stops after `n` steps, the cells of the line are
    /// those of these steps.
    pub proof fn lemma_points_when_stopped(self, n: nat)
        requires
            self.reaches(n),
            !self.goes_on(self.cursor(n)),
        ensures
            self.points() == self.prefix(n),
    {
        assert forall|q: (int, int)| self.points().contains(q) == self.prefix(n).contains(q) by {
            if self.points().contains(q) {
                let m = choose|m: nat| self.reaches(m) && #[trigger] self.visits(q, m);
                if m > n {
                    assert(self.goes_on(self.cursor(n)));
                }
                assert(m <= n && self.visits(q, m));
            }
            if self.prefix(n).contains(q) {
                let m = choose|m: nat| m <= n && #[trigger] self.visits(q, m);
                assert(self.reaches(m));
            }
        }
        assert(self.points() =~= self.prefix(n));
    }

    /// Whether the stepping is on its way after `n` steps, of which `i` went
    /// along x and `j` along y: the cursor lies that far from the first cell,
    /// no further than the last, and the error term is what these steps make
    /// it.
    pub open spec fn on_track(self, n: nat, i: int, j: int) -> bool {
        let c = self.cursor(n);
        &&& 0 <= i <= self.dx()
        &&& 0 <= j <= -self.dy()
        &&& c.x == if self.sx() > 0 {
            self.x1 + i
        } else {
            self.x1 - i
        }
        &&& c.y == if self.sy() > 0 {
            self.y1 + j
        } else {
            self.y1 - j
        }
        &&& c.err == (i + 1) * self.dy() + (j + 1) * self.dx()
        &&& 2 * self.dy() <= c.err <= 2 * self.dx()
    }

    /// Whether the step from the cursor `c` goes along x.
    pub open spec fn along_x(self, c: LineCursor) -> bool {
        2 * c.err >= self.dy()
    }

    /// Whether the step from the cursor `c` goes along y.
    pub open spec fn along_y(self, c: LineCursor) -> bool {
        2 * c.err <= self.dx()
    }

    /// The stepping starts on its way.
    pub proof fn lemma_on_track_start(self)
        ensures
            self.on_track(0, 0, 0),
    {
        assert((0 + 1) * self.dy() + (0 + 1) * self.dx() == self.dx() + self.dy())
            by (nonlinear_arith);
    }

    /// A step from a cell that is not the last keeps the stepping on its way:
    /// it goes along x or along y or both, and along neither further than
    /// the last cell lies.
    pub proof fn lemma_on_track_step(self, n: nat, i: int, j: int)
        requires
            self.on_track(n, i, j),
            self.cursor(n).x != self.x2 || self.cursor(n).y != self.y2,
        ensures
            self.along_x(self.cursor(n)) || self.along_y(self.cursor(n)),
            self.on_track(
                n + 1,
                if self.along_x(self.cursor(n)) {
                    i + 1
                } else {
                    i
                },
                if self.along_y(self.cursor(n)) {
                    j + 1
                } else {
                    j
                },
            ),
    {
        let c = self.cursor(n);
        let dx = self.dx();
        let dy = self.dy();
        if i == dx {
            lemma_no_step_past_x(dx, -dy, j, c.err);
        }
        if j == -dy {
            lemma_no_step_past_y(dx, -dy, i, c.err);
        }
        assert((i + 2) * dy == (i + 1) * dy + dy) by (nonlinear_arith);
        assert((j + 2) * dx == (j + 1) * dx + dx) by (nonlinear_arith);
        assert(self.cursor(n + 1) == self.step(c));
    }

    /// A line whose last cell lies on the canvas is stepped to its end: the
    /// last cell is one of its cells.
    pub proof fn lemma_ends_at_last(self)
        requires
            0 <= self.x2 < self.w,
            0 <= self.y2 < self.h,
        ensures
            self.points().contains((self.x2, self.y2)),
    {
        self.lemma_on_track_start();
        assert(self.reaches(0));
        self.lemma_walk(0, 0, 0);
    }

    proof fn lemma_walk(self, n: nat, i: int, j: int)
        requires
            0 <= self.x2 < self.w,
            0 <= self.y2 < self.h,
            self.on_track(n, i, j),
            self.reaches(n),
        ensures
            self.points().contains((self.x2, self.y2)),
        decreases (self.dx() - i) + (-self.dy() - j),
    {
        let c = self.cursor(n);
        if c.x == self.x2 && c.y == self.y2 {
            assert(self.visits((self.x2, self.y2), n));
        } else {
            assert(self.goes_on(c));
            self.lemma_on_track_step(n, i, j);
            assert forall|m: nat| m < n + 1 implies self.goes_on(#[trigger] self.cursor(m)) by {
                if m == n {
                }
            }
            self.lemma_walk(
                n + 1,
                if self.along_x(c) {
                    i + 1
                } else {
                    i
                },
                if self.along_y(c) {
                    j + 1
                } else {
                    j
                },
            );
        }
    }
}

/// Where all steps along x are taken and some along y are left, the next step
/// is along y alone.
proof fn lemma_no_step_past_x(dx: int, ady: int, j: int, err: int)
    requires
        0 <= dx,
        0 <= j < ady,
        err == (dx + 1) * (-ady) + (j + 1) * dx,
    ensures
        2 * err < -ady,
        2 * err <= dx,
{
    assert((j + 1) * dx <= ady * dx) by (nonlinear_arith)
        requires
            j + 1 <= ady,
            0 <= dx,
    ;
    assert((dx + 1) * (-ady) == -(ady * dx) - ady) by (nonlinear_arith);
}

/// Where all steps along y are taken and some along x are left, the next step
/// is along x alone.
proof fn lemma_no_step_past_y(dx: int, ady: int, i: int, err: int)
    requires
        0 <= ady,
        0 <= i < dx,
        err == (i + 1) * (-ady) + (ady + 1) * dx,
    ensures
        2 * err > dx,
        2 * err >= -ady,
{
    assert((i + 1) * ady <= dx * ady) by (nonlinear_arith)
        requires
            i + 1 <= dx,
            0 <= ady,
    ;
    assert((i + 1) * (-ady) == -((i + 1) * ady)) by (nonlinear_arith);
    assert((ady + 1) * dx == dx * ady + dx) by (nonlinear_arith);
}

} // verus!
