//! Spawning an obstacle when the prey is caught.
use vstd::prelude::*;
use rand::rngs::SmallRng;
use crate::engine::is_min_distance;
use crate::geometry::{
    dist_sq, len_sq, CollisionShape, Extent, Object, Position, Pt, Scalar, Vec2, MAX_COORD,
};
use crate::physics::{clamp_to_field, clamped, fits};
use crate::random::draw_range;
use crate::types::{
    base_half_size, field_ok, inside_field, lemma_base_half_size, min_side, Obstacle,
    ObstacleKind, State,
};

verus! {

/// Out of `ROLL_RANGE`, the rolls that make an obstacle special.
pub const SPECIAL_OBSTACLE_ROLLS: i64 = 100;

/// Rolls are drawn from `[0, ROLL_RANGE)`.
pub const ROLL_RANGE: i64 = 1000;

/// Tries of the rejection sampling before the farthest corner is taken.
pub const MAX_SPAWN_ATTEMPTS: u32 = 1000;

/// The kind that the two rolls of a new obstacle give: one roll in ten makes
/// it special, and a second roll picks which of the two switches it is.
pub open spec fn kind_from_rolls(special_roll: int, kind_roll: int) -> ObstacleKind {
    if special_roll < SPECIAL_OBSTACLE_ROLLS {
        if kind_roll >= ROLL_RANGE / 2 {
            ObstacleKind::InvisibiltySwitch
        } else {
            ObstacleKind::AttractiveForceSwitch
        }
    } else {
        ObstacleKind::Deadly
    }
}

/// Deadly obstacles are three tenths of the hunter's half-size; special ones
/// twice that.
pub open spec fn obstacle_half_size_spec(hunter_half_size: int, special_roll: int) -> int {
    if special_roll < SPECIAL_OBSTACLE_ROLLS {
        hunter_half_size * 3 / 10 * 2
    } else {
        hunter_half_size * 3 / 10
    }
}

pub open spec fn obstacle_spec(
    field: Extent,
    hunter_half_size: int,
    special_roll: int,
    kind_roll: int,
    vx: i64,
    vy: i64,
    pos: Position,
) -> Obstacle {
    let hs = obstacle_half_size_spec(hunter_half_size, special_roll);
    Obstacle {
        kind: kind_from_rolls(special_roll, kind_roll),
        object: Object { pos: clamped(field, hs, pos), half_size: hs as i64, shape: CollisionShape::Circle },
        velocity: Vec2 { x: vx, y: vy },
    }
}

/// Largest magnitude of the velocity drawn for a new obstacle on a side of
/// length `side`: four tenths of it.
pub open spec fn spawn_speed(side: int) -> int {
    side * 2 / 5
}

/// What holds of every obstacle that a capture spawns, whatever was drawn.
pub open spec fn spawned_ok(s: State, o: Obstacle, md: int) -> bool {
    let hhs = s.hunter.object.half_size as int;
    &&& o.wf_in(s.field)
    &&& o.object.shape == CollisionShape::Circle
    &&& (o.kind == ObstacleKind::Deadly ==> o.object.half_size == hhs * 3 / 10)
    &&& (o.kind != ObstacleKind::Deadly ==> o.object.half_size == hhs * 3 / 10 * 2)
    &&& -spawn_speed(s.field.x as int) <= o.velocity.x < spawn_speed(s.field.x as int)
    &&& -spawn_speed(s.field.y as int) <= o.velocity.y < spawn_speed(s.field.y as int)
    &&& len_sq(o.object.pos.x - s.hunter.object.pos.x, o.object.pos.y - s.hunter.object.pos.y) >= md * md
}

/// `s2` is `s1` after a capture: the prey moved within the field and one
/// obstacle was appended; nothing else changed.
pub open spec fn spawned_from(s1: State, s2: State, md: int) -> bool {
    &&& s2.obstacles@.len() == s1.obstacles@.len() + 1
    &&& s2.obstacles@.drop_last() == s1.obstacles@
    &&& spawned_ok(s1, s2.obstacles@.last(), md)
    &&& inside_field(s2.prey, s2.field)
    &&& s2 == (State { prey: Object { pos: s2.prey.pos, ..s1.prey }, obstacles: s2.obstacles, ..s1 })
}

proof fn lemma_far_axis(from: int, side: int, hs: int, r: int)
    requires
        0 < hs,
        hs * 25 <= side,
        r == (if from * 2 < side { side - hs } else { hs }),
    ensures
        100 * (r - from) * (r - from) >= side * side,
{
    assert(50 * (r - from) >= 23 * side || 50 * (from - r) >= 23 * side);
    assert(100 * (r - from) * (r - from) >= side * side) by (nonlinear_arith)
        requires 50 * (r - from) >= 23 * side || 50 * (from - r) >= 23 * side, side >= 0;
}

/// The obstacle that a capture spawns, from what was drawn: the two rolls
/// pick its kind and size, `(vx, vy)` is its velocity, and its position
/// `pos` is kept inside the field.
pub fn obstacle_from_draws(
    field: &Extent,
    hunter_half_size: Pt,
    special_roll: i64,
    kind_roll: i64,
    vx: i64,
    vy: i64,
    pos: Position,
) -> (r: Obstacle)
    requires
        field_ok(*field),
        base_half_size(*field) <= hunter_half_size <= base_half_size(*field) * 3 / 2,
    ensures
        r == obstacle_spec(*field, hunter_half_size as int, special_roll as int, kind_roll as int, vx, vy, pos),
{
    let hs = obstacle_half_size(field, hunter_half_size, special_roll);
    let kind = if special_roll < SPECIAL_OBSTACLE_ROLLS {
        if kind_roll >= ROLL_RANGE / 2 {
            ObstacleKind::InvisibiltySwitch
        } else {
            ObstacleKind::AttractiveForceSwitch
        }
    } else {
        ObstacleKind::Deadly
    };
    Obstacle {
        kind,
        object: Object {
            pos: clamp_to_field(field, hs, pos),
            half_size: hs,
            shape: CollisionShape::Circle,
        },
        velocity: Vec2 { x: vx, y: vy },
    }
}

/// The half-size of a new obstacle; see `obstacle_half_size_spec`.
pub(crate) fn obstacle_half_size(field: &Extent, hunter_half_size: Pt, special_roll: i64) -> (r: Pt)
    requires
        field_ok(*field),
        base_half_size(*field) <= hunter_half_size <= base_half_size(*field) * 3 / 2,
    ensures
        r == obstacle_half_size_spec(hunter_half_size as int, special_roll as int),
        0 < r <= base_half_size(*field),
        fits(*field, r as int),
{
    proof {
        lemma_base_half_size(*field);
    }
    let hs = hunter_half_size * 3 / 10;
    if special_roll < SPECIAL_OBSTACLE_ROLLS {
        hs * 2
    } else {
        hs
    }
}

/// The corner position farthest from `from`, for a box of half-size `hs`.
pub(crate) fn far_position(field: &Extent, hs: Pt, from: Position, md: Scalar) -> (r: Position)
    requires
        field_ok(*field),
        0 < hs,
        hs * 25 <= min_side(*field),
        from.bounded(MAX_COORD as int),
        is_min_distance(*field, md as int),
    ensures
        inside_field(Object { pos: r, half_size: hs, shape: CollisionShape::Circle }, *field),
        len_sq(r.x - from.x, r.y - from.y) >= md * md,
{
    let x = if from.x * 2 < field.x { field.x - hs } else { hs };
    let y = if from.y * 2 < field.y { field.y - hs } else { hs };
    proof {
        lemma_far_axis(from.x as int, field.x as int, hs as int, x as int);
        lemma_far_axis(from.y as int, field.y as int, hs as int, y as int);
        assert(len_sq(x - from.x, y - from.y) >= md * md) by (nonlinear_arith)
            requires
                100 * (x - from.x) * (x - from.x) >= field.x * field.x,
                100 * (y - from.y) * (y - from.y) >= field.y * field.y,
                100 * md * md <= len_sq(field.x as int, field.y as int),
                len_sq(x - from.x, y - from.y) == (x - from.x) * (x - from.x) + (y - from.y) * (y - from.y),
                len_sq(field.x as int, field.y as int) == field.x * field.x + field.y * field.y;
    }
    Vec2 { x, y }
}

/// Draws positions until one lies at least `md` from `from`; after
/// `MAX_SPAWN_ATTEMPTS` tries the farthest corner is taken instead.
pub(crate) fn spawn_position(
    field: &Extent,
    draw_half_size: Pt,
    hs: Pt,
    from: Position,
    md: Scalar,
    rng: &mut SmallRng,
) -> (r: Position)
    requires
        field_ok(*field),
        fits(*field, draw_half_size as int),
        0 < hs,
        hs * 25 <= min_side(*field),
        from.bounded(MAX_COORD as int),
        is_min_distance(*field, md as int),
    ensures
        inside_field(Object { pos: r, half_size: hs, shape: CollisionShape::Circle }, *field),
        len_sq(r.x - from.x, r.y - from.y) >= md * md,
{
    let mut attempts: u32 = 0;
    let mut found = false;
    let mut pos = from;
    assert(md * md <= 100_000_000_000_000_000_000) by (nonlinear_arith)
        requires
            0 <= md,
            100 * md * md <= field.x * field.x + field.y * field.y,
            0 <= field.x <= 1_000_000_000,
            0 <= field.y <= 1_000_000_000;
    let md_sq: u128 = (md as u128) * (md as u128);
    while !found && attempts < MAX_SPAWN_ATTEMPTS
        invariant
            field_ok(*field),
            fits(*field, draw_half_size as int),
            0 < hs,
            hs * 25 <= min_side(*field),
            from.bounded(MAX_COORD as int),
            md_sq == md * md,
            found ==> inside_field(Object { pos, half_size: hs, shape: CollisionShape::Circle }, *field),
            found ==> len_sq(pos.x - from.x, pos.y - from.y) >= md * md,
        decreases MAX_SPAWN_ATTEMPTS - attempts + (if found { 0int } else { 1int }),
    {
        let drawn = rnd_obj_pos_in_field(field, draw_half_size, rng);
        let cand = clamp_to_field(field, hs, drawn);
        if dist_sq(cand, from) >= md_sq {
            pos = cand;
            found = true;
        } else {
            attempts = attempts + 1;
        }
    }
    if found {
        pos
    } else {
        far_position(field, hs, from, md)
    }
}

/// Moves the prey to a new random position and appends one new obstacle.
pub(crate) fn new_obstacle(rng: &mut SmallRng, s: &mut State, min_distance: Scalar)
    requires
        old(s).wf(),
        is_min_distance(old(s).field, min_distance as int),
    ensures
        final(s).wf(),
        spawned_from(*old(s), *final(s), min_distance as int),
{
    proof {
        lemma_base_half_size(s.field);
    }
    s.prey.pos = rnd_obj_pos_in_field(&s.field, s.prey.half_size, rng);
    let special_roll = draw_range(rng, 0, ROLL_RANGE);
    let kind_roll = if special_roll < SPECIAL_OBSTACLE_ROLLS {
        draw_range(rng, 0, ROLL_RANGE)
    } else {
        0
    };
    let vmax_x = s.field.x * 2 / 5;
    let vmax_y = s.field.y * 2 / 5;
    let vx = draw_range(rng, -vmax_x, vmax_x);
    let vy = draw_range(rng, -vmax_y, vmax_y);
    let hs = obstacle_half_size(&s.field, s.hunter.object.half_size, special_roll);
    let pos = spawn_position(
        &s.field,
        s.prey.half_size,
        hs,
        s.hunter.object.pos,
        min_distance,
        rng,
    );
    let o = obstacle_from_draws(
        &s.field,
        s.hunter.object.half_size,
        special_roll,
        kind_roll,
        vx,
        vy,
        pos,
    );
    assert(o.object.pos == pos);
    s.obstacles.push(o);
    proof {
        assert(s.obstacles@.drop_last() =~= old(s).obstacles@);
        assert forall|i: int| 0 <= i < s.obstacles@.len() implies (#[trigger] s.obstacles@[i]).wf_in(
            s.field,
        ) by {
            if i < old(s).obstacles@.len() {
                assert(s.obstacles@[i] == old(s).obstacles@[i]);
            }
        }
    }
}

/// A random position at which a box of half-size `half_size` lies inside
/// the field.
pub(crate) fn rnd_obj_pos_in_field(field: &Extent, half_size: Pt, rng: &mut SmallRng) -> (r: Position)
    requires
        field_ok(*field),
        fits(*field, half_size as int),
    ensures
        inside_field(Object { pos: r, half_size, shape: CollisionShape::Circle }, *field),
{
    let x = draw_range(rng, 0, field.x);
    let y = draw_range(rng, 0, field.y);
    clamp_to_field(field, half_size, Vec2 { x, y })
}

} // verus!
