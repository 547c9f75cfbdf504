//! Obstacle physics: the hunter's force fields, motion, and reflection off
//! the field's edges.
//!
//! Velocities are in thousandths of a unit per second and saturate at
//! `MAX_SPEED` on each axis; divisions round towards zero.
use vstd::prelude::*;
use crate::engine::MICROS;
use crate::geometry::{
    dist_sq, is_isqrt, isqrt, len_sq, CollisionShape, Extent, Object, Position, Pt, Vec2,
    MAX_COORD, MAX_SPEED,
};
use crate::types::{field_ok, inside_field, lemma_base_half_size, Hunter, Obstacle, State, MAX_FORCE};

verus! {

/// Bound of the intermediate sums of positions.
pub const WIDE: i128 = 1_000_000_000_000_000_000_000_000_000_000_000_000;

/// Takes `v` into `[hs, limit - hs]`, as a box of half-size `hs` is kept
/// inside `[0, limit]`.
pub open spec fn clamp_axis_spec(v: int, hs: int, limit: int) -> int {
    let a = if v - hs < 0 { hs } else { v };
    if a + hs > limit { limit - hs } else { a }
}

pub open spec fn clamped(field: Extent, hs: int, pos: Position) -> Position {
    Vec2 {
        x: clamp_axis_spec(pos.x as int, hs, field.x as int) as i64,
        y: clamp_axis_spec(pos.y as int, hs, field.y as int) as i64,
    }
}

/// A half-size that fits the field twice over on each axis.
pub open spec fn fits(field: Extent, hs: int) -> bool {
    0 < hs && 2 * hs <= field.x && 2 * hs <= field.y
}

/// Keeps a box of half-size `hs` centred at `v` inside `[0, limit]`.
pub fn clamp_axis(v: i128, hs: i64, limit: i64) -> (r: i64)
    requires
        -WIDE <= v <= WIDE,
        0 < hs,
        2 * hs <= limit,
    ensures
        r == clamp_axis_spec(v as int, hs as int, limit as int),
        hs <= r <= limit - hs,
{
    let mut a: i128 = v;
    if a - (hs as i128) < 0 {
        a = hs as i128;
    }
    if a + (hs as i128) > limit as i128 {
        a = (limit - hs) as i128;
    }
    a as i64
}

/// The floor of the square root of a non-negative `x`.
pub open spec fn root(x: int) -> int {
    choose|r: int| is_isqrt(x, r)
}

pub(crate) proof fn lemma_root_unique(x: int, r: int)
    requires
        is_isqrt(x, r),
    ensures
        root(x) == r,
{
    let c = root(x);
    assert(is_isqrt(x, c));
    if c < r {
        assert((c + 1) * (c + 1) <= r * r) by (nonlinear_arith)
            requires 0 <= c + 1 <= r;
    } else if c > r {
        assert((r + 1) * (r + 1) <= c * c) by (nonlinear_arith)
            requires 0 <= r + 1 <= c;
    }
}

/// Division that rounds towards zero.
pub open spec fn div_toward_zero_spec(num: int, den: int) -> int {
    if num >= 0 {
        num / den
    } else {
        -((-num) / den)
    }
}

/// Velocities saturate at `MAX_SPEED` on each axis.
pub open spec fn limit_speed(v: int) -> int {
    if v > MAX_SPEED {
        MAX_SPEED as int
    } else if v < -MAX_SPEED {
        -MAX_SPEED
    } else {
        v
    }
}

/// Radius of the hunter's force field.
pub open spec fn field_radius(h: Hunter) -> int {
    h.object.half_size * 8
}

/// One component of the push that an obstacle at offset `d` (length `len`)
/// from the hunter gets: it fades linearly to zero at the field's radius `r`.
/// The strength `f` is in thousandths per second.
pub open spec fn push_component(d: int, len: int, r: int, f: int) -> int {
    div_toward_zero_spec(d * (r - len) * f, r * 1000)
}

/// The velocity added to an obstacle at `pos` by the hunter's force field
/// and the attracting force `attract`: repelling where positive, attracting
/// where negative.
pub open spec fn push_spec(pos: Position, h: Hunter, attract: int) -> (int, int) {
    let dx = pos.x - h.object.pos.x;
    let dy = pos.y - h.object.pos.y;
    let len = root(len_sq(dx, dy));
    let r = field_radius(h);
    let f = h.force - attract;
    if (h.force > 0 || attract > 0) && len <= r {
        (push_component(dx, len, r, f), push_component(dy, len, r, f))
    } else {
        (0, 0)
    }
}

/// A position after moving at `v` for `dt` microseconds, before any clamp.
pub open spec fn predicted(p: int, v: int, dt: u64) -> int {
    p + div_toward_zero_spec(v * dt, MICROS as int)
}

/// The velocity is reflected where the box touches or crosses an edge.
pub open spec fn reflected(p: int, hs: int, limit: int, v: int) -> int {
    if p - hs <= 0 || p + hs >= limit {
        -v
    } else {
        v
    }
}

/// An obstacle after one step of the physics.
pub open spec fn advected(
    o: Obstacle,
    h: Hunter,
    attract: int,
    field: Extent,
    dt: u64,
) -> Obstacle {
    let push = push_spec(o.object.pos, h, attract);
    let vx = limit_speed(o.velocity.x + push.0);
    let vy = limit_speed(o.velocity.y + push.1);
    let px = predicted(o.object.pos.x as int, vx, dt);
    let py = predicted(o.object.pos.y as int, vy, dt);
    let hs = o.object.half_size as int;
    Obstacle {
        object: Object {
            pos: Vec2 {
                x: clamp_axis_spec(px, hs, field.x as int) as i64,
                y: clamp_axis_spec(py, hs, field.y as int) as i64,
            },
            ..o.object
        },
        velocity: Vec2 {
            x: reflected(px, hs, field.x as int, vx) as i64,
            y: reflected(py, hs, field.y as int, vy) as i64,
        },
        ..o
    }
}

/// Divides by a positive `den`, rounding towards zero.
pub fn div_toward_zero(num: i128, den: i128) -> (r: i128)
    requires
        -WIDE <= num <= WIDE,
        0 < den,
    ensures
        r == div_toward_zero_spec(num as int, den as int),
        -WIDE <= r <= WIDE,
        num >= 0 ==> 0 <= r <= num,
        num < 0 ==> num <= r <= 0,
{
    if num >= 0 {
        let q = (num as u128) / (den as u128);
        assert(q <= num) by (nonlinear_arith)
            requires q as int == num as int / den as int, num >= 0, den > 0;
        q as i128
    } else {
        let q = ((-num) as u128) / (den as u128);
        assert(q <= -num) by (nonlinear_arith)
            requires q as int == (-num) as int / den as int, -num > 0, den > 0;
        -(q as i128)
    }
}

/// Moves one coordinate for `dt` microseconds, reflects the velocity where
/// the box of half-size `hs` would reach an edge of `[0, limit]`, and keeps
/// the box inside. Returns the new coordinate and velocity.
pub fn integrate_axis(pos: i64, vel: i64, hs: i64, limit: i64, dt: u64) -> (r: (i64, i64))
    requires
        -MAX_COORD <= pos <= MAX_COORD,
        -MAX_SPEED <= vel <= MAX_SPEED,
        0 < hs,
        2 * hs <= limit,
    ensures
        r.0 == clamp_axis_spec(predicted(pos as int, vel as int, dt), hs as int, limit as int),
        r.1 == reflected(predicted(pos as int, vel as int, dt), hs as int, limit as int, vel as int),
        hs <= r.0 <= limit - hs,
        predicted(pos as int, vel as int, dt) - hs <= 0 ==> r.1 == -vel,
        predicted(pos as int, vel as int, dt) + hs >= limit ==> r.1 == -vel,
        predicted(pos as int, vel as int, dt) - hs < 0 ==> r.0 == hs,
        predicted(pos as int, vel as int, dt) + hs > limit ==> r.0 == limit - hs,
{
    let v = vel as i128;
    let t = dt as i128;
    assert(-20_000_000_000_000_000_000_000_000_000_000 <= v * t <= 20_000_000_000_000_000_000_000_000_000_000) by (nonlinear_arith)
        requires -1_000_000_000_000 <= v <= 1_000_000_000_000, 0 <= t <= 0xffff_ffff_ffff_ffff;
    let p = pos as i128 + div_toward_zero(v * t, MICROS as i128);
    let new_vel = if p - (hs as i128) <= 0 || p + (hs as i128) >= limit as i128 {
        -vel
    } else {
        vel
    };
    (clamp_axis(p, hs, limit), new_vel)
}

/// The velocity that the force fields add to an obstacle at `pos`.
pub(crate) fn push_velocity(pos: Position, hunter: &Hunter, attract: i64) -> (r: (i128, i128))
    requires
        pos.bounded(MAX_COORD as int),
        hunter.object.wf(),
        hunter.object.half_size <= 100_000_000,
        0 <= hunter.force <= MAX_FORCE,
        -MAX_FORCE <= attract <= MAX_FORCE,
    ensures
        r.0 == push_spec(pos, *hunter, attract as int).0,
        r.1 == push_spec(pos, *hunter, attract as int).1,
        -10_000_000_000_000_000_000_000_000_000 <= r.0 <= 10_000_000_000_000_000_000_000_000_000,
        -10_000_000_000_000_000_000_000_000_000 <= r.1 <= 10_000_000_000_000_000_000_000_000_000,
{
    if hunter.force > 0 || attract > 0 {
        let d2 = dist_sq(pos, hunter.object.pos);
        let len_u = isqrt(d2);
        proof {
            lemma_root_unique(d2 as int, len_u as int);
        }
        let len = len_u as i128;
        let r = hunter.object.half_size as i128 * 8;
        if len <= r {
            let f = (hunter.force - attract) as i128;
            let dx = pos.x as i128 - hunter.object.pos.x as i128;
            let dy = pos.y as i128 - hunter.object.pos.y as i128;
            let k = r - len;
            assert(-2_000_000_000_000_000_000_000 <= dx * k <= 2_000_000_000_000_000_000_000) by (nonlinear_arith)
                requires -2_000_000_000_000 <= dx <= 2_000_000_000_000, 0 <= k <= 800_000_000;
            assert(-2_000_000_000_000_000_000_000 <= dy * k <= 2_000_000_000_000_000_000_000) by (nonlinear_arith)
                requires -2_000_000_000_000 <= dy <= 2_000_000_000_000, 0 <= k <= 800_000_000;
            let dxk = dx * k;
            let dyk = dy * k;
            assert(-4_000_000_000_000_000_000_000_000_000 <= dxk * f <= 4_000_000_000_000_000_000_000_000_000) by (nonlinear_arith)
                requires -2_000_000_000_000_000_000_000 <= dxk <= 2_000_000_000_000_000_000_000, -2_000_000 <= f <= 2_000_000;
            assert(-4_000_000_000_000_000_000_000_000_000 <= dyk * f <= 4_000_000_000_000_000_000_000_000_000) by (nonlinear_arith)
                requires -2_000_000_000_000_000_000_000 <= dyk <= 2_000_000_000_000_000_000_000, -2_000_000 <= f <= 2_000_000;
            let den = r * 1000;
            assert(dxk * f == dx * k * f && dyk * f == dy * k * f);
            (div_toward_zero(dxk * f, den), div_toward_zero(dyk * f, den))
        } else {
            (0, 0)
        }
    } else {
        (0, 0)
    }
}

/// Saturates a velocity component at `MAX_SPEED`.
pub(crate) fn limit_speed_exec(v: i128) -> (r: i64)
    ensures
        r == limit_speed(v as int),
{
    if v > MAX_SPEED as i128 {
        MAX_SPEED
    } else if v < -(MAX_SPEED as i128) {
        -MAX_SPEED
    } else {
        v as i64
    }
}

/// One step of the physics of one obstacle.
pub(crate) fn advect_one(
    o: Obstacle,
    hunter: &Hunter,
    attract: i64,
    field: &Extent,
    dt: u64,
) -> (r: Obstacle)
    requires
        field_ok(*field),
        o.wf_in(*field),
        hunter.wf_in(*field),
        -MAX_FORCE <= attract <= MAX_FORCE,
    ensures
        r == advected(o, *hunter, attract as int, *field, dt),
        r.wf_in(*field),
{
    proof {
        lemma_base_half_size(*field);
    }
    let push = push_velocity(o.object.pos, hunter, attract);
    let vx = limit_speed_exec(o.velocity.x as i128 + push.0);
    let vy = limit_speed_exec(o.velocity.y as i128 + push.1);
    let (px, nvx) = integrate_axis(o.object.pos.x, vx, o.object.half_size, field.x, dt);
    let (py, nvy) = integrate_axis(o.object.pos.y, vy, o.object.half_size, field.y, dt);
    Obstacle {
        kind: o.kind,
        object: Object { pos: Vec2 { x: px, y: py }, half_size: o.object.half_size, shape: o.object.shape },
        velocity: Vec2 { x: nvx, y: nvy },
    }
}

/// Moves every obstacle under the force fields and reflects it off the
/// field's edges.
pub(crate) fn advect_obstacles(s: &mut State, dt: u64)
    requires
        old(s).wf(),
    ensures
        final(s).wf(),
        final(s).obstacles@.len() == old(s).obstacles@.len(),
        forall|i: int|
            0 <= i < old(s).obstacles@.len() ==> #[trigger] final(s).obstacles@[i] == advected(
                old(s).obstacles@[i],
                old(s).hunter,
                old(s).attracting_force.current as int,
                old(s).field,
                dt,
            ),
        *final(s) == (State { obstacles: final(s).obstacles, ..*old(s) }),
{
    let n = s.obstacles.len();
    let mut i: usize = 0;
    while i < n
        invariant
            s.wf(),
            n == s.obstacles@.len(),
            n == old(s).obstacles@.len(),
            0 <= i <= n,
            *s == (State { obstacles: s.obstacles, ..*old(s) }),
            forall|j: int|
                0 <= j < i ==> #[trigger] s.obstacles@[j] == advected(
                    old(s).obstacles@[j],
                    old(s).hunter,
                    old(s).attracting_force.current as int,
                    old(s).field,
                    dt,
                ),
            forall|j: int| i <= j < n ==> #[trigger] s.obstacles@[j] == old(s).obstacles@[j],
        decreases n - i,
    {
        let o = s.obstacles[i];
        assert(s.obstacles@[i as int].wf_in(s.field));
        let moved = advect_one(o, &s.hunter, s.attracting_force.current, &s.field, dt);
        s.obstacles.set(i, moved);
        proof {
            assert forall|j: int| 0 <= j < s.obstacles@.len() implies (#[trigger] s.obstacles@[j]).wf_in(
                s.field,
            ) by {
                if j != i {
                    assert(s.obstacles@[j] == old(s).obstacles@[j] || j < i);
                }
            }
        }
        i = i + 1;
    }
}

/// Keeps a box of half-size `half_size` at `pos` inside the field.
pub(crate) fn clamp_to_field(field: &Extent, half_size: Pt, pos: Position) -> (r: Position)
    requires
        fits(*field, half_size as int),
    ensures
        r == clamped(*field, half_size as int, pos),
        inside_field(Object { pos: r, half_size, shape: CollisionShape::Circle }, *field),
{
    Vec2 {
        x: clamp_axis(pos.x as i128, half_size, field.x),
        y: clamp_axis(pos.y as i128, half_size, field.y),
    }
}

} // verus!
