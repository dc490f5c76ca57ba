//! Two-dimensional integer vectors.

use vstd::prelude::*;

verus! {

/// Two-dimensional vector of `i32` components, used for positions and sizes.
#[derive(Debug, Copy, Clone, PartialEq, Eq, Hash, Structural)]
pub struct Vec2 {
    pub x: i32,
    pub y: i32,
}

impl Vec2 {
    /// The origin.
    pub fn zero() -> (r: Self)
        ensures
            r == (Vec2 { x: 0, y: 0 }),
    {
        Vec2 { x: 0, y: 0 }
    }

    /// The unit vector along x.
    pub fn unix() -> (r: Self)
        ensures
            r == (Vec2 { x: 1, y: 0 }),
    {
        Vec2 { x: 1, y: 0 }
    }

    /// The unit vector along y.
    pub fn uniy() -> (r: Self)
        ensures
            r == (Vec2 { x: 0, y: 1 }),
    {
        Vec2 { x: 0, y: 1 }
    }

    /// The vector whose components are those of the pair `v`.
    pub fn point(v: (i32, i32)) -> (r: Self)
        ensures
            r.x == v.0,
            r.y == v.1,
    {
        Vec2 { x: v.0, y: v.1 }
    }

    /// The vector `(x, y)`.
    pub fn new(x: i32, y: i32) -> (r: Self)
        ensures
            r.x == x,
            r.y == y,
    {
        Vec2 { x, y }
    }
}

impl vstd::std_specs::ops::AddSpecImpl for Vec2 {
    open spec fn obeys_add_spec() -> bool {
        true
    }

    open spec fn add_req(self, rhs: Vec2) -> bool {
        &&& i32::MIN <= self.x + rhs.x <= i32::MAX
        &&& i32::MIN <= self.y + rhs.y <= i32::MAX
    }

    open spec fn add_spec(self, rhs: Vec2) -> Vec2 {
        Vec2 { x: (self.x + rhs.x) as i32, y: (self.y + rhs.y) as i32 }
    }
}

impl core::ops::Add for Vec2 {
    type Output = Vec2;

    /// The sum, component by component.
    fn add(self, rhs: Vec2) -> (r: Vec2) {
        Vec2 { x: self.x + rhs.x, y: self.y + rhs.y }
    }
}

impl vstd::std_specs::ops::SubSpecImpl for Vec2 {
    open spec fn obeys_sub_spec() -> bool {
        true
    }

    open spec fn sub_req(self, rhs: Vec2) -> bool {
        &&& i32::MIN <= self.x - rhs.x <= i32::MAX
        &&& i32::MIN <= self.y - rhs.y <= i32::MAX
    }

    open spec fn sub_spec(self, rhs: Vec2) -> Vec2 {
        Vec2 { x: (self.x - rhs.x) as i32, y: (self.y - rhs.y) as i32 }
    }
}

impl core::ops::Sub for Vec2 {
    type Output = Vec2;

    /// The difference, component by component.
    fn sub(self, rhs: Vec2) -> (r: Vec2) {
        Vec2 { x: self.x - rhs.x, y: self.y - rhs.y }
    }
}

impl vstd::std_specs::ops::MulSpecImpl<i32> for Vec2 {
    open spec fn obeys_mul_spec() -> bool {
        true
    }

    open spec fn mul_req(self, rhs: i32) -> bool {
        &&& i32::MIN <= self.x * rhs <= i32::MAX
        &&& i32::MIN <= self.y * rhs <= i32::MAX
    }

    open spec fn mul_spec(self, rhs: i32) -> Vec2 {
        Vec2 { x: (self.x * rhs) as i32, y: (self.y * rhs) as i32 }
    }
}

impl core::ops::Mul<i32> for Vec2 {
    type Output = Vec2;

    /// Both components times `rhs`.
    fn mul(self, rhs: i32) -> (r: Vec2) {
        Vec2 { x: self.x * rhs, y: self.y * rhs }
    }
}

/// The quotient of `n` by `d`, rounded toward zero.
pub open spec fn quotient(n: int, d: int) -> int {
    let q = (if n >= 0 {
        n
    } else {
        -n
    }) / (if d >= 0 {
        d
    } else {
        -d
    });
    if (n >= 0) == (d >= 0) {
        q
    } else {
        -q
    }
}

fn divide(n: i32, d: i32) -> (q: i32)
    requires
        d != 0,
        !(n == i32::MIN && d == -1),
    ensures
        q == quotient(n as int, d as int),
{
    let an: i64 = if n >= 0 {
        n as i64
    } else {
        -(n as i64)
    };
    let ad: i64 = if d >= 0 {
        d as i64
    } else {
        -(d as i64)
    };
    let q: i64 = an / ad;
    assert(q <= an) by (nonlinear_arith)
        requires
            q == an / ad,
            an >= 0,
            ad >= 1,
    ;
    assert(ad == 1 ==> q == an) by (nonlinear_arith)
        requires
            q == an / ad,
    ;
    if ad >= 2 {
        assert(2 * q <= an) by (nonlinear_arith)
            requires
                q == an / ad,
                an >= 0,
                ad >= 2,
        ;
    }
    if (n >= 0) == (d >= 0) {
        q as i32
    } else {
        (-q) as i32
    }
}

impl vstd::std_specs::ops::DivSpecImpl<i32> for Vec2 {
    open spec fn obeys_div_spec() -> bool {
        true
    }

    open spec fn div_req(self, rhs: i32) -> bool {
        &&& rhs != 0
        &&& rhs == -1 ==> self.x != i32::MIN && self.y != i32::MIN
    }

    open spec fn div_spec(self, rhs: i32) -> Vec2 {
        Vec2 {
            x: quotient(self.x as int, rhs as int) as i32,
            y: quotient(self.y as int, rhs as int) as i32,
        }
    }
}

impl core::ops::Div<i32> for Vec2 {
    type Output = Vec2;

    /// Both components divided by `rhs`, rounded toward zero.
    fn div(self, rhs: i32) -> (r: Vec2) {
        Vec2 { x: divide(self.x, rhs), y: divide(self.y, rhs) }
    }
}

impl vstd::std_specs::convert::FromSpecImpl<(i32, i32)> for Vec2 {
    open spec fn obeys_from_spec() -> bool {
        true
    }

    open spec fn from_spec(v: (i32, i32)) -> Vec2 {
        Vec2 { x: v.0, y: v.1 }
    }
}

impl core::convert::From<(i32, i32)> for Vec2 {
    /// The vector whose components are those of the pair.
    fn from(v: (i32, i32)) -> (r: Vec2) {
        Vec2 { x: v.0, y: v.1 }
    }
}

impl vstd::std_specs::convert::FromSpecImpl<(u32, u32)> for Vec2 {
    open spec fn obeys_from_spec() -> bool {
        true
    }

    open spec fn from_spec(v: (u32, u32)) -> Vec2 {
        Vec2 { x: v.0 as i32, y: v.1 as i32 }
    }
}

impl core::convert::From<(u32, u32)> for Vec2 {
    /// The vector whose components are the low 32 bits of those of the pair.
    fn from(v: (u32, u32)) -> (r: Vec2) {
        Vec2 { x: #[verifier::truncate] (v.0 as i32), y: #[verifier::truncate] (v.1 as i32) }
    }
}

impl vstd::std_specs::convert::FromSpecImpl<(isize, isize)> for Vec2 {
    open spec fn obeys_from_spec() -> bool {
        true
    }

    open spec fn from_spec(v: (isize, isize)) -> Vec2 {
        Vec2 { x: v.0 as i32, y: v.1 as i32 }
    }
}

impl core::convert::From<(isize, isize)> for Vec2 {
    /// The vector whose components are the low 32 bits of those of the pair.
    fn from(v: (isize, isize)) -> (r: Vec2) {
        Vec2 { x: #[verifier::truncate] (v.0 as i32), y: #[verifier::truncate] (v.1 as i32) }
    }
}

impl vstd::std_specs::convert::FromSpecImpl<(usize, usize)> for Vec2 {
    open spec fn obeys_from_spec() -> bool {
        true
    }

    open spec fn from_spec(v: (usize, usize)) -> Vec2 {
        Vec2 { x: v.0 as i32, y: v.1 as i32 }
    }
}

impl core::convert::From<(usize, usize)> for Vec2 {
    /// The vector whose components are the low 32 bits of those of the pair.
    fn from(v: (usize, usize)) -> (r: Vec2) {
        Vec2 { x: #[verifier::truncate] (v.0 as i32), y: #[verifier::truncate] (v.1 as i32) }
    }
}

impl core::ops::AddAssign for Vec2 {
    /// Adds `rhs`, component by component.
    fn add_assign(&mut self, rhs: Vec2)
        requires
            i32::MIN <= old(self).x + rhs.x <= i32::MAX,
            i32::MIN <= old(self).y + rhs.y <= i32::MAX,
        ensures
            final(self).x == old(self).x + rhs.x,
            final(self).y == old(self).y + rhs.y,
    {
        self.x = self.x + rhs.x;
        self.y = self.y + rhs.y;
    }
}

impl core::ops::SubAssign for Vec2 {
    /// Subtracts `rhs`, component by component.
    fn sub_assign(&mut self, rhs: Vec2)
        requires
            i32::MIN <= old(self).x - rhs.x <= i32::MAX,
            i32::MIN <= old(self).y - rhs.y <= i32::MAX,
        ensures
            final(self).x == old(self).x - rhs.x,
            final(self).y == old(self).y - rhs.y,
    {
        self.x = self.x - rhs.x;
        self.y = self.y - rhs.y;
    }
}

impl core::ops::MulAssign<i32> for Vec2 {
    /// Multiplies both components by `rhs`.
    fn mul_assign(&mut self, rhs: i32)
        requires
            i32::MIN <= old(self).x * rhs <= i32::MAX,
            i32::MIN <= old(self).y * rhs <= i32::MAX,
        ensures
            final(self).x == old(self).x * rhs,
            final(self).y == old(self).y * rhs,
    {
        self.x = self.x * rhs;
        self.y = self.y * rhs;
    }
}

impl core::ops::DivAssign<i32> for Vec2 {
    /// Divides both components by `rhs`, rounding toward zero.
    fn div_assign(&mut self, rhs: i32)
        requires
            rhs != 0,
            rhs == -1 ==> old(self).x != i32::MIN && old(self).y != i32::MIN,
        ensures
            final(self).x == quotient(old(self).x as int, rhs as int),
            final(self).y == quotient(old(self).y as int, rhs as int),
    {
        self.x = divide(self.x, rhs);
        self.y = divide(self.y, rhs);
    }
}

} // verus!
