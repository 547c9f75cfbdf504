//! Fixed-point vectors and the collision model of game objects.
//!
//! Lengths are held in thousandths of a field unit, so that all geometry is
//! exact integer arithmetic.
use vstd::prelude::*;

verus! {

/// Thousandths of a field unit per field unit.
pub const UNIT: i64 = 1000;

/// Largest magnitude of a coordinate that the library accepts.
pub const MAX_COORD: i64 = 1_000_000_000_000;

/// Largest magnitude of a velocity component (thousandths of a unit per second).
pub const MAX_SPEED: i64 = 1_000_000_000_000;

/// A scalar in thousandths of a field unit.
pub type Scalar = i64;

/// Points on screen, in thousandths.
pub type Pt = Scalar;

/// A two-component integer vector.
#[derive(Debug, Clone, Copy, PartialEq, Eq, Structural)]
pub struct Vec2 {
    pub x: i64,
    pub y: i64,
}

/// [width, height]
pub type Extent = Vec2;

/// [x, y]
pub type Position = Vec2;

/// Thousandths of a unit per second, on each axis.
pub type Velocity = Vec2;

pub open spec fn within(v: int, bound: int) -> bool {
    -bound <= v <= bound
}

pub open spec fn sq(v: int) -> int {
    v * v
}

/// Squared euclidean length of `(dx, dy)`.
pub open spec fn len_sq(dx: int, dy: int) -> int {
    dx * dx + dy * dy
}

/// The floor of the square root of `x`.
pub open spec fn is_isqrt(x: int, r: int) -> bool {
    0 <= r && r * r <= x < (r + 1) * (r + 1)
}

impl Vec2 {
    pub open spec fn bounded(self, bound: int) -> bool {
        within(self.x as int, bound) && within(self.y as int, bound)
    }

    pub fn new(x: i64, y: i64) -> (r: Vec2)
        ensures
            r.x == x && r.y == y,
    {
        Vec2 { x, y }
    }
}

/// Integer square root: the largest `r` with `r * r <= x`.
pub fn isqrt(x: u128) -> (r: u64)
    requires
        x < 0x1_0000_0000_0000_0000_0000_0000,
    ensures
        is_isqrt(x as int, r as int),
{
    let mut lo: u128 = 0;
    let mut hi: u128 = 0x1_0000_0000_0000;
    assert(hi * hi == 0x1_0000_0000_0000_0000_0000_0000) by (nonlinear_arith)
        requires hi == 0x1_0000_0000_0000;
    while hi - lo > 1
        invariant
            lo < hi <= 0x1_0000_0000_0000,
            lo * lo <= x < hi * hi,
        decreases hi - lo,
    {
        let mid: u128 = lo + (hi - lo) / 2;
        assert(mid * mid <= 0x1_0000_0000_0000_0000_0000_0000) by (nonlinear_arith)
            requires mid <= 0x1_0000_0000_0000;
        if mid * mid <= x {
            lo = mid;
        } else {
            hi = mid;
        }
    }
    assert(hi == lo + 1);
    lo as u64
}

/// Squared distance between two positions, exactly.
pub fn dist_sq(a: Position, b: Position) -> (r: u128)
    requires
        a.bounded(MAX_COORD as int),
        b.bounded(MAX_COORD as int),
    ensures
        r as int == len_sq(a.x - b.x, a.y - b.y),
        r < 0x1_0000_0000_0000_0000_0000_0000,
{
    let dx: i128 = a.x as i128 - b.x as i128;
    let dy: i128 = a.y as i128 - b.y as i128;
    assert(dx * dx <= 4_000_000_000_000_000_000_000_000) by (nonlinear_arith)
        requires -2_000_000_000_000 <= dx <= 2_000_000_000_000;
    assert(dy * dy <= 4_000_000_000_000_000_000_000_000) by (nonlinear_arith)
        requires -2_000_000_000_000 <= dy <= 2_000_000_000_000;
    assert(dx * dx >= 0 && dy * dy >= 0) by (nonlinear_arith);
    (dx * dx + dy * dy) as u128
}

/// Squared length of a velocity, exactly.
pub fn speed_sq(v: Velocity) -> (r: u128)
    requires
        v.bounded(MAX_SPEED as int),
    ensures
        r as int == len_sq(v.x as int, v.y as int),
        r <= 2_000_000_000_000_000_000_000_000,
{
    let vx: i128 = v.x as i128;
    let vy: i128 = v.y as i128;
    assert(vx * vx <= 1_000_000_000_000_000_000_000_000) by (nonlinear_arith)
        requires -1_000_000_000_000 <= vx <= 1_000_000_000_000;
    assert(vy * vy <= 1_000_000_000_000_000_000_000_000) by (nonlinear_arith)
        requires -1_000_000_000_000 <= vy <= 1_000_000_000_000;
    assert(vx * vx >= 0 && vy * vy >= 0) by (nonlinear_arith);
    (vx * vx + vy * vy) as u128
}

/// Represents a shape used for collision detection.
#[derive(Debug, Clone, Copy, PartialEq, Eq, Structural)]
pub enum CollisionShape {
    Square,
    Circle,
}

/// A game object which knows a few things about itself.
#[derive(Debug, Clone, Copy, PartialEq, Eq, Structural)]
pub struct Object {
    pub pos: Position,
    pub half_size: Pt,
    pub shape: CollisionShape,
}

/// Largest half-size of an object.
pub const MAX_HALF_SIZE: i64 = 1_000_000_000_000;

impl Object {
    pub open spec fn wf(self) -> bool {
        &&& 0 < self.half_size <= MAX_HALF_SIZE
        &&& self.pos.bounded(MAX_COORD as int)
    }

    pub open spec fn left_spec(self) -> int {
        self.pos.x - self.half_size
    }

    pub open spec fn right_spec(self) -> int {
        self.pos.x + self.half_size
    }

    pub open spec fn top_spec(self) -> int {
        self.pos.y - self.half_size
    }

    pub open spec fn bottom_spec(self) -> int {
        self.pos.y + self.half_size
    }

    /// Circles overlap when their centres are no farther apart than the sum
    /// of their radii; any other pair is tested by bounding boxes.
    pub open spec fn intersects_spec(self, other: Object) -> bool {
        if self.shape == CollisionShape::Circle && other.shape == CollisionShape::Circle {
            len_sq(self.pos.x - other.pos.x, self.pos.y - other.pos.y)
                <= sq(self.half_size + other.half_size)
        } else {
            &&& self.left_spec() <= other.right_spec()
            &&& self.right_spec() >= other.left_spec()
            &&& self.top_spec() <= other.bottom_spec()
            &&& self.bottom_spec() >= other.top_spec()
        }
    }

    pub fn left(&self) -> (r: Scalar)
        requires
            self.wf(),
        ensures
            r == self.left_spec(),
    {
        self.pos.x - self.half_size
    }

    pub fn right(&self) -> (r: Scalar)
        requires
            self.wf(),
        ensures
            r == self.right_spec(),
    {
        self.pos.x + self.half_size
    }

    pub fn top(&self) -> (r: Scalar)
        requires
            self.wf(),
        ensures
            r == self.top_spec(),
    {
        self.pos.y - self.half_size
    }

    pub fn bottom(&self) -> (r: Scalar)
        requires
            self.wf(),
        ensures
            r == self.bottom_spec(),
    {
        self.pos.y + self.half_size
    }

    /// Returns true if both objects intersect.
    pub fn intersects(&self, other: &Object) -> (r: bool)
        requires
            self.wf(),
            other.wf(),
        ensures
            r == self.intersects_spec(*other),
    {
        match (self.shape, other.shape) {
            (CollisionShape::Circle, CollisionShape::Circle) => {
                let d = dist_sq(self.pos, other.pos);
                let reach: u128 = (self.half_size as u128) + (other.half_size as u128);
                assert(reach * reach <= 4_000_000_000_000_000_000_000_000) by (nonlinear_arith)
                    requires reach <= 2_000_000_000_000;
                d <= reach * reach
            },
            _ => {
                self.left() <= other.right() && self.right() >= other.left() && self.top()
                    <= other.bottom() && self.bottom() >= other.top()
            },
        }
    }
}

/// Symmetry of the collision test.
pub proof fn lemma_intersects_symmetric(a: Object, b: Object)
    ensures
        a.intersects_spec(b) == b.intersects_spec(a),
{
    assert(len_sq(a.pos.x - b.pos.x, a.pos.y - b.pos.y) == len_sq(
        b.pos.x - a.pos.x,
        b.pos.y - a.pos.y,
    )) by (nonlinear_arith);
}

} // verus!
