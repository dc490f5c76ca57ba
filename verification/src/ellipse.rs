//! The cells of an ellipse outline, as the midpoint algorithm visits them in
//! one quarter, and their mirror images in the other three.

use vstd::prelude::*;

verus! {

/// Division that rounds toward zero, by a positive divisor.
pub open spec fn trunc_div(n: int, d: int) -> int {
    if n >= 0 {
        n / d
    } else {
        -((-n) / d)
    }
}

/// An ellipse with the half axes `a` along x and `b` along y.
pub struct Ellipse {
    pub a: int,
    pub b: int,
}

/// Where the stepping stands: the cell under the cursor, relative to the
/// center, the decision value, and its increments for a step east and a step
/// south-east.
pub struct EllipseCursor {
    pub x: int,
    pub y: int,
    pub p: int,
    pub dpe: int,
    pub dpse: int,
}

/// The four cells that lie `(x, y)` from the center `(cx, cy)` and mirror one
/// another in its axes.
pub open spec fn four(cx: int, cy: int, x: int, y: int) -> Set<(int, int)> {
    set![(cx + x, cy + y), (cx + x, cy - y), (cx - x, cy + y), (cx - x, cy - y)]
}

/// The cells whose place relative to the center `(cx, cy)` is in `quarter`,
/// with their mirror images in both axes of the center.
pub open spec fn mirrored(quarter: Set<(int, int)>, cx: int, cy: int) -> Set<(int, int)> {
    Set::new(
        |t: (int, int)|
            quarter.contains((t.0 - cx, t.1 - cy)) || quarter.contains((t.0 - cx, cy - t.1))
                || quarter.contains((cx - t.0, t.1 - cy)) || quarter.contains(
                (cx - t.0, cy - t.1),
            ),
    )
}

impl Ellipse {
    /// The ellipse inscribed in a box of the given width and height.
    pub open spec fn inscribed(width: int, height: int) -> Ellipse {
        Ellipse { a: trunc_div(width, 2), b: trunc_div(height, 2) }
    }

    /// Where the decision increment for a step south-east ends the first
    /// region, in which the outline is flatter than a diagonal.
    pub open spec fn limit(self) -> int {
        2 * (self.a * self.a) + 3 * (self.b * self.b)
    }

    /// The cursor before the first step, on top of the ellipse.
    pub open spec fn start(self) -> EllipseCursor {
        EllipseCursor {
            x: 0,
            y: self.b,
            p: self.b * self.b + trunc_div(self.a * self.a * (1 - 4 * self.b) - 2, 4),
            dpe: 3 * (self.b * self.b),
            dpse: 3 * (self.b * self.b) - 2 * (self.a * self.a * (self.b - 1)),
        }
    }

    /// Whether the cursor is still in the first region.
    pub open spec fn in_first(self, c: EllipseCursor) -> bool {
        c.dpse < self.limit()
    }

    /// One step of the first region: east while the decision value is
    /// negative, else south-east.
    pub open spec fn step_first(self, c: EllipseCursor) -> EllipseCursor {
        if c.p < 0 {
            EllipseCursor {
                x: c.x + 1,
                y: c.y,
                p: c.p + c.dpe,
                dpe: c.dpe + 2 * (self.b * self.b),
                dpse: c.dpse + 2 * (self.b * self.b),
            }
        } else {
            EllipseCursor {
                x: c.x + 1,
                y: c.y - 1,
                p: c.p + c.dpse,
                dpe: c.dpe + 2 * (self.b * self.b),
                dpse: c.dpse + 2 * (self.b * self.b) + 2 * (self.a * self.a),
            }
        }
    }

    /// The cursor after `n` steps of the first region.
    pub open spec fn first(self, n: nat) -> EllipseCursor
        decreases n,
    {
        if n == 0 {
            self.start()
        } else {
            self.step_first(self.first((n - 1) as nat))
        }
    }

    /// Whether the first region lasts for `n` steps at least.
    pub open spec fn reaches_first(self, n: nat) -> bool {
        forall|m: nat| m < n ==> self.in_first(#[trigger] self.first(m))
    }

    /// Whether the first region ends after exactly `n` steps.
    pub open spec fn ends_first(self, n: nat) -> bool {
        self.reaches_first(n) && !self.in_first(self.first(n))
    }

    /// The decision increment for a step south, which the second region keeps
    /// as it is where the first region ended, at the cursor `c`.
    pub open spec fn dps(self, c: EllipseCursor) -> int {
        self.a * self.a * (3 - 2 * c.y)
    }

    /// The cursor at the start of the second region, from the cursor `c` at the
    /// end of the first.
    pub open spec fn turn(self, c: EllipseCursor) -> EllipseCursor {
        EllipseCursor {
            x: c.x,
            y: c.y,
            p: c.p - trunc_div(
                self.a * self.a * (4 * c.y - 3) + self.b * self.b * (4 * c.x + 3) + 2,
                4,
            ),
            dpe: c.dpe,
            dpse: 2 * (self.b * self.b) + 3 * (self.a * self.a),
        }
    }

    /// One step of the second region: south while the decision value is
    /// positive, else south-east.
    pub open spec fn step_second(self, dps: int, c: EllipseCursor) -> EllipseCursor {
        if c.p > 0 {
            EllipseCursor {
                x: c.x,
                y: c.y - 1,
                p: c.p + dps,
                dpe: c.dpe,
                dpse: c.dpse + 2 * (self.a * self.a),
            }
        } else {
            EllipseCursor {
                x: c.x + 1,
                y: c.y - 1,
                p: c.p + c.dpse,
                dpe: c.dpe,
                dpse: c.dpse + 2 * (self.b * self.b) + 2 * (self.a * self.a),
            }
        }
    }

    /// The cursor after `n` steps of the first region and `m` of the second.
    pub open spec fn second(self, n: nat, m: nat) -> EllipseCursor
        decreases m,
    {
        if m == 0 {
            self.turn(self.first(n))
        } else {
            self.step_second(self.dps(self.first(n)), self.second(n, (m - 1) as nat))
        }
    }

    /// Whether the first region ends after `n` steps and the second, which goes
    /// on while the cursor is above the center, lasts for `m` steps at least.
    pub open spec fn reaches_second(self, n: nat, m: nat) -> bool {
        &&& self.ends_first(n)
        &&& forall|k: nat| k < m ==> (#[trigger] self.second(n, k)).y > 0
    }

    /// Whether the cursor stands on `q` after `n` steps of the first region.
    pub open spec fn visits_first(self, q: (int, int), n: nat) -> bool {
        q.0 == self.first(n).x && q.1 == self.first(n).y
    }

    /// Whether the cursor stands on `q` after `n` steps of the first region
    /// and `m` of the second.
    pub open spec fn visits_second(self, q: (int, int), n: nat, m: nat) -> bool {
        q.0 == self.second(n, m).x && q.1 == self.second(n, m).y
    }

    /// The cells under the cursor during the first `n` steps of the first
    /// region.
    pub open spec fn prefix_first(self, n: nat) -> Set<(int, int)> {
        Set::new(|q: (int, int)| exists|m: nat| m <= n && #[trigger] self.visits_first(q, m))
    }

    /// The cells under the cursor during the first `m` steps of the second
    /// region, which follows `n` steps of the first.
    pub open spec fn prefix_second(self, n: nat, m: nat) -> Set<(int, int)> {
        Set::new(|q: (int, int)| exists|k: nat| k <= m && #[trigger] self.visits_second(q, n, k))
    }

    /// All cells that the cursor visits, relative to the center.
    pub open spec fn quarter(self) -> Set<(int, int)> {
        Set::new(
            |q: (int, int)|
                (exists|n: nat| self.reaches_first(n) && #[trigger] self.visits_first(q, n)) || (
                exists|n: nat, m: nat|
                    self.reaches_second(n, m) && #[trigger] self.visits_second(q, n, m)),
        )
    }

    /// All cells of the outline around the center `(cx, cy)`.
    pub open spec fn points(self, cx: int, cy: int) -> Set<(int, int)> {
        mirrored(self.quarter(), cx, cy)
    }

    /// With each cell of the outline, its three mirror images in the axes of
    /// the center are cells of the outline.
    pub proof fn lemma_symmetric(self, cx: int, cy: int, x: int, y: int)
        requires
            self.points(cx, cy).contains((cx + x, cy + y)),
        ensures
            self.points(cx, cy).contains((cx - x, cy + y)),
            self.points(cx, cy).contains((cx + x, cy - y)),
            self.points(cx, cy).contains((cx - x, cy - y)),
    {
        let q = self.quarter();
        assert(q.contains((x, y)) || q.contains((x, -y)) || q.contains((-x, y)) || q.contains(
            (-x, -y),
        ));
    }

    /// One more step of the first region adds the cell that it leads to.
    pub proof fn lemma_prefix_first_step(self, n: nat, q: (int, int))
        ensures
            self.prefix_first(n + 1).contains(q) <==> self.prefix_first(n).contains(q)
                || self.visits_first(q, n + 1),
    {
        if self.prefix_first(n + 1).contains(q) {
            let m = choose|m: nat| m <= n + 1 && #[trigger] self.visits_first(q, m);
            if m <= n {
                assert(self.prefix_first(n).contains(q));
            }
        }
        if self.prefix_first(n).contains(q) {
            let m = choose|m: nat| m <= n && #[trigger] self.visits_first(q, m);
            assert(m <= n + 1 && self.visits_first(q, m));
        }
        if self.visits_first(q, n + 1) {
            assert(self.prefix_first(n + 1).contains(q));
        }
    }

    /// One more step of the second region adds the cell that it leads to.
    pub proof fn lemma_prefix_second_step(self, n: nat, m: nat, q: (int, int))
        ensures
            self.prefix_second(n, m + 1).contains(q) <==> self.prefix_second(n, m).contains(q)
                || self.visits_second(q, n, m + 1),
    {
        if self.prefix_second(n, m + 1).contains(q) {
            let k = choose|k: nat| k <= m + 1 && #[trigger] self.visits_second(q, n, k);
            if k <= m {
                assert(self.prefix_second(n, m).contains(q));
            }
        }
        if self.prefix_second(n, m).contains(q) {
            let k = choose|k: nat| k <= m && #[trigger] self.visits_second(q, n, k);
            assert(k <= m + 1 && self.visits_second(q, n, k));
        }
        if self.visits_second(q, n, m + 1) {
            assert(self.prefix_second(n, m + 1).contains(q));
        }
    }

    /// The cells under the cursor during `n` steps of the first region and
    /// then `m` of the second.
    pub open spec fn so_far(self, n: nat, m: nat) -> Set<(int, int)> {
        self.prefix_first(n).union(self.prefix_second(n, m))
    }

    /// Before any step, the outline holds the four mirror images of its top.
    pub proof fn lemma_mirrored_start(self, cx: int, cy: int, t: (int, int))
        ensures
            mirrored(self.prefix_first(0), cx, cy).contains(t) <==> four(
                cx,
                cy,
                self.first(0).x,
                self.first(0).y,
            ).contains(t),
    {
        let pre = self.prefix_first(0);
        let top = (self.first(0).x, self.first(0).y);
        assert(self.visits_first(top, 0));
        assert forall|q: (int, int)| pre.contains(q) <==> q == top by {
            if pre.contains(q) {
                let m = choose|m: nat| m <= 0 && #[trigger] self.visits_first(q, m);
                assert(m == 0);
            }
        }
    }

    /// One more step of the first region adds the four mirror images of the
    /// cell that it leads to.
    pub proof fn lemma_mirrored_first_step(self, cx: int, cy: int, n: nat, t: (int, int))
        ensures
            mirrored(self.prefix_first(n + 1), cx, cy).contains(t) <==> mirrored(
                self.prefix_first(n),
                cx,
                cy,
            ).contains(t) || four(cx, cy, self.first(n + 1).x, self.first(n + 1).y).contains(t),
    {
        self.lemma_prefix_first_step(n, (t.0 - cx, t.1 - cy));
        self.lemma_prefix_first_step(n, (t.0 - cx, cy - t.1));
        self.lemma_prefix_first_step(n, (cx - t.0, t.1 - cy));
        self.lemma_prefix_first_step(n, (cx - t.0, cy - t.1));
    }

    /// The second region starts on the cell on which the first ended.
    pub proof fn lemma_mirrored_turn(self, cx: int, cy: int, n: nat, t: (int, int))
        ensures
            mirrored(self.so_far(n, 0), cx, cy).contains(t) <==> mirrored(
                self.prefix_first(n),
                cx,
                cy,
            ).contains(t),
    {
        assert forall|q: (int, int)| self.so_far(n, 0).contains(q) <==> self.prefix_first(
            n,
        ).contains(q) by {
            if self.prefix_second(n, 0).contains(q) {
                let k = choose|k: nat| k <= 0 && #[trigger] self.visits_second(q, n, k);
                assert(k == 0);
                assert(self.visits_first(q, n));
            }
        }
    }

    /// One more step of the second region adds the four mirror images of the
    /// cell that it leads to.
    pub proof fn lemma_mirrored_second_step(
        self,
        cx: int,
        cy: int,
        n: nat,
        m: nat,
        t: (int, int),
    )
        ensures
            mirrored(self.so_far(n, m + 1), cx, cy).contains(t) <==> mirrored(
                self.so_far(n, m),
                cx,
                cy,
            ).contains(t) || four(
                cx,
                cy,
                self.second(n, m + 1).x,
                self.second(n, m + 1).y,
            ).contains(t),
    {
        self.lemma_prefix_second_step(n, m, (t.0 - cx, t.1 - cy));
        self.lemma_prefix_second_step(n, m, (t.0 - cx, cy - t.1));
        self.lemma_prefix_second_step(n, m, (cx - t.0, t.1 - cy));
        self.lemma_prefix_second_step(n, m, (cx - t.0, cy - t.1));
    }

    /// Where the first region ends after `n` steps and the second after `m`,
    /// the cells of the quarter are those of these steps.
    pub proof fn lemma_quarter_when_stopped(self, n: nat, m: nat)
        requires
            self.reaches_second(n, m),
            self.second(n, m).y <= 0,
        ensures
            self.quarter() == self.so_far(n, m),
    {
        let both = self.so_far(n, m);
        assert forall|q: (int, int)| self.quarter().contains(q) == both.contains(q) by {
            if self.quarter().contains(q) {
                if exists|i: nat| self.reaches_first(i) && #[trigger] self.visits_first(q, i) {
                    let i = choose|i: nat|
                        self.reaches_first(i) && #[trigger] self.visits_first(q, i);
                    if i > n {
                        assert(self.in_first(self.first(n)));
                    }
                    assert(i <= n && self.visits_first(q, i));
                } else {
                    let (i, k) = choose|i: nat, k: nat|
                        self.reaches_second(i, k) && #[trigger] self.visits_second(q, i, k);
                    if i < n {
                        assert(self.in_first(self.first(i)));
                    }
                    if n < i {
                        assert(self.in_first(self.first(n)));
                    }
                    if k > m {
                        assert(self.second(n, m).y > 0);
                    }
                    assert(k <= m && self.visits_second(q, n, k));
                }
            }
            if self.prefix_first(n).contains(q) {
                let i = choose|i: nat| i <= n && #[trigger] self.visits_first(q, i);
                assert(self.reaches_first(i));
            }
            if self.prefix_second(n, m).contains(q) {
                let k = choose|k: nat| k <= m && #[trigger] self.visits_second(q, n, k);
                assert(self.reaches_second(n, k));
            }
        }
        assert(self.quarter() =~= both);
    }
}

} // verus!
