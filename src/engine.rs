//! The engine: a game's life cycle and the order of the rules in one tick.
//!
//! A tick of `dt` microseconds records `dt`, rewards a moving hunter,
//! scores a capture and spawns an obstacle for it, moves the obstacles,
//! advances the two effects, and resolves the hunter's collisions; a deadly
//! one ends the game.
use vstd::prelude::*;
use rand::rngs::SmallRng;
use crate::effects::{advance_effect, collided, effect_step, resolve_collisions, Impact};
use crate::geometry::{
    dist_sq, isqrt, len_sq, speed_sq, sq, CollisionShape, Extent, Object, Position, Scalar, Vec2,
    Velocity, MAX_COORD,
};
use crate::physics::{
    advect_obstacles, advected, div_toward_zero, div_toward_zero_spec, limit_speed,
    limit_speed_exec,
};
use crate::random::{entropy_rng, seeded_rng};
use crate::spawn::{new_obstacle, rnd_obj_pos_in_field, spawned_from};
use crate::transition::Transition;
use crate::types::{
    base_half_size, field_ok, inside_field, lemma_base_half_size, out_of_field, Hunter, Obstacle,
    State, MIN_FIELD_MARGIN, UNIT_COEFF,
};

verus! {

/// Length of every effect transition, in microseconds.
pub const TRANSITION_DURATION: u64 = 500_000;

/// How long obstacles stay invisible, in microseconds.
pub const HOLD_INVISIBILITY_DURATION: u64 = 500_000;

/// How long the attracting force is held, in microseconds.
pub const ATTRACTIVE_FORCE_DURATION: u64 = 5_000_000;

/// Strength of the hunter's force field, in thousandths per second.
pub const HUNTER_FORCE: i64 = 100;

/// Largest attracting force, `HUNTER_FORCE * 1.25`.
pub const MAX_ATTRACTING_FORCE: i64 = 125;

/// Opacity of obstacles, in thousandths.
pub const FULL_OPACITY: i64 = 1000;

/// Points for one capture, before the multiplier.
pub const SCORE_PER_PREY: u64 = 10;

/// Microseconds per second.
pub const MICROS: i64 = 1_000_000;

/// Squared speed above which the hunter counts as moving (10 units a second).
pub const MOVING_SPEED_SQ: u128 = 100_000_000;

/// `md` is a tenth of the field's diagonal, rounded down.
pub open spec fn is_min_distance(field: Extent, md: int) -> bool {
    0 <= md && 100 * md * md <= len_sq(field.x as int, field.y as int) < sq(10 * md + 10)
}

/// The state that a new game on `field` starts from, but for the prey's
/// position.
pub open spec fn fresh_state(field: Extent, s: State) -> bool {
    let hs = base_half_size(field);
    &&& s.wf()
    &&& s.field == field
    &&& s.hunter.object == (Object {
        pos: Vec2 { x: (-2 * hs) as i64, y: (-2 * hs) as i64 },
        half_size: hs as i64,
        shape: CollisionShape::Circle,
    })
    &&& s.hunter.force == 0
    &&& s.hunter.velocity == Vec2 { x: 0, y: 0 }
    &&& s.prey.half_size == hs && s.prey.shape == CollisionShape::Square
    &&& inside_field(s.prey, field)
    &&& s.obstacles@.len() == 0
    &&& s.obstacle_opacity == Transition::new_spec(FULL_OPACITY, 0, TRANSITION_DURATION)
    &&& s.attracting_force == Transition::new_spec(0, MAX_ATTRACTING_FORCE, TRANSITION_DURATION)
    &&& s.score == 0
    &&& s.score_coeff == UNIT_COEFF
    &&& s.last_dt == MICROS
}

/// The engine implements the game logic.
///
/// It relies on user input given as 2d coordinates.
pub struct Engine {
    state: Option<State>,
    min_distance: Scalar,
    rng: SmallRng,
}

impl Engine {
    /// A game in progress is well formed, and the minimum spawn distance
    /// belongs to its field.
    pub closed spec fn wf(self) -> bool {
        match self.state {
            Some(s) => s.wf() && is_min_distance(s.field, self.min_distance as int),
            None => true,
        }
    }

    /// The game in progress, if any.
    pub closed spec fn view_state(self) -> Option<State> {
        self.state
    }

    /// The distance from the hunter within which no obstacle is spawned.
    pub closed spec fn min_distance_spec(self) -> int {
        self.min_distance as int
    }


    /// The hunter's half-size on `field`, while its force field is off.
    fn hunter_half_size(field: &Extent) -> (r: Scalar)
        requires
            field_ok(*field),
        ensures
            r == base_half_size(*field),
    {
        let side = if field.x <= field.y { field.x } else { field.y };
        let m = side * 5 / 100;
        let margin = if m >= MIN_FIELD_MARGIN { m } else { MIN_FIELD_MARGIN };
        (margin - MIN_FIELD_MARGIN / 6) / 2
    }


    /// A new game on `field`, with the prey at a random position.
    fn state_from_field(field: Extent, rng: &mut SmallRng) -> (r: State)
        requires
            field_ok(field),
        ensures
            fresh_state(field, r),
            r.hunter.object.right_spec() < 0 && r.hunter.object.bottom_spec() < 0,
            !r.hunter.object.intersects_spec(r.prey),
    {
        proof {
            lemma_base_half_size(field);
        }
        let half_size = Self::hunter_half_size(&field);
        let prey_pos = rnd_obj_pos_in_field(&field, half_size, rng);
        let s = State {
            field,
            hunter: Hunter {
                object: Object {
                    pos: Vec2 { x: -half_size * 2, y: -half_size * 2 },
                    half_size,
                    shape: CollisionShape::Circle,
                },
                force: 0,
                velocity: Vec2 { x: 0, y: 0 },
            },
            prey: Object { pos: prey_pos, half_size, shape: CollisionShape::Square },
            obstacles: Vec::new(),
            obstacle_opacity: Transition::new(FULL_OPACITY, 0, TRANSITION_DURATION),
            attracting_force: Transition::new(0, MAX_ATTRACTING_FORCE, TRANSITION_DURATION),
            score: 0,
            score_coeff: UNIT_COEFF,
            last_dt: MICROS as u64,
        };
        s
    }

    /// A tenth of the field's diagonal: no obstacle is placed nearer to the
    /// hunter.
    pub fn min_distance(field: &Extent) -> (r: Scalar)
        requires
            field_ok(*field),
        ensures
            is_min_distance(*field, r as int),
    {
        let d = dist_sq(*field, Vec2 { x: 0, y: 0 });
        let root = isqrt(d);
        let r = (root / 10) as i64;
        assert(10 * r <= root < 10 * r + 10);
        assert(100 * r * r <= root * root) by (nonlinear_arith)
            requires 0 <= 10 * r <= root;
        assert((root + 1) * (root + 1) <= (10 * r + 10) * (10 * r + 10)) by (nonlinear_arith)
            requires 0 <= root + 1 <= 10 * r + 10;
        r
    }

    fn set_state(&mut self, state: State)
        requires
            state.wf(),
        ensures
            final(self).wf(),
            final(self).view_state() == Some(state),
    {
        self.min_distance = Self::min_distance(&state.field);
        self.state = Some(state);
    }

    /// A new game on `field`, with a generator seeded by the system.
    pub fn from_field(field: Extent) -> (r: Engine)
        requires
            field_ok(field),
        ensures
            r.wf(),
            r.view_state() is Some,
            fresh_state(field, r.view_state()->Some_0),
    {
        Self::with_rng(field, entropy_rng())
    }

    /// A new game on `field`, with a generator seeded by `seed`: the same
    /// seed and the same inputs give the same game.
    pub fn from_field_seeded(field: Extent, seed: u64) -> (r: Engine)
        requires
            field_ok(field),
        ensures
            r.wf(),
            r.view_state() is Some,
            fresh_state(field, r.view_state()->Some_0),
    {
        Self::with_rng(field, seeded_rng(seed))
    }

    fn with_rng(field: Extent, rng: SmallRng) -> (r: Engine)
        requires
            field_ok(field),
        ensures
            r.wf(),
            r.view_state() is Some,
            fresh_state(field, r.view_state()->Some_0),
    {
        let mut rng = rng;
        let s = Self::state_from_field(field, &mut rng);
        let mut e = Engine { state: None, min_distance: 0, rng };
        e.set_state(s);
        e
    }

    /// Reset the engine to a new game on `field`.
    pub fn reset(&mut self, field: Extent)
        requires
            field_ok(field),
        ensures
            final(self).wf(),
            final(self).view_state() is Some,
            fresh_state(field, final(self).view_state()->Some_0),
    {
        let s = Self::state_from_field(field, &mut self.rng);
        self.set_state(s);
    }

    /// The game in progress; `None` after game-over, until the next reset.
    pub fn state(&self) -> (r: &Option<State>)
        ensures
            *r == self.view_state(),
    {
        &self.state
    }
}

/// The hunter moves faster than ten units a second.
pub open spec fn is_moving(h: Hunter) -> bool {
    len_sq(h.velocity.x as int, h.velocity.y as int) > MOVING_SPEED_SQ
}

pub open spec fn sat_u64(v: int) -> u64 {
    if v <= u64::MAX { v as u64 } else { u64::MAX }
}

pub open spec fn sat_u32(v: int) -> u32 {
    if v <= u32::MAX { v as u32 } else { u32::MAX }
}

/// The first steps of a tick: `dt` is kept as `last_dt`, and a hunter that
/// moves inside the field raises the score multiplier by a tenth per second.
pub open spec fn rewarded(s: State, dt: u64) -> State {
    State {
        last_dt: dt,
        score_coeff: if !out_of_field(s.field, s.hunter.object.pos) && is_moving(s.hunter) {
            sat_u64(s.score_coeff + dt / 10)
        } else {
            s.score_coeff
        },
        ..s
    }
}

/// The points of one capture: ten times the multiplier, which doubles for
/// each effect that has been triggered, rounded to the nearest integer.
pub open spec fn capture_points_spec(coeff: u64, opacity: Transition, force: Transition) -> u32 {
    let m = coeff * (if opacity.is_pristine_spec() { 1int } else { 2int }) * (if force.is_pristine_spec() {
        1int
    } else {
        2int
    });
    sat_u32((SCORE_PER_PREY * m + UNIT_COEFF / 2) / (UNIT_COEFF as int))
}

pub open spec fn captured(s: State) -> bool {
    s.hunter.object.intersects_spec(s.prey)
}

pub open spec fn scored(s: State) -> State {
    State {
        score: sat_u32(
            s.score + capture_points_spec(s.score_coeff, s.obstacle_opacity, s.attracting_force),
        ),
        ..s
    }
}

/// `s2` follows `s1` by the capture rule: on a capture the score grows and an
/// obstacle is spawned; otherwise nothing changes.
pub open spec fn after_capture(s1: State, s2: State, md: int) -> bool {
    if captured(s1) {
        spawned_from(scored(s1), s2, md)
    } else {
        s2 == s1
    }
}

pub open spec fn advected_all(s: State, dt: u64) -> Seq<Obstacle> {
    Seq::new(
        s.obstacles@.len(),
        |i: int|
            advected(s.obstacles@[i], s.hunter, s.attracting_force.current as int, s.field, dt),
    )
}

/// Physics, effect transitions and collisions of one tick, on the state
/// after the capture rule.
pub open spec fn tick_impact(s: State, dt: u64) -> Impact {
    collided(
        (
            advected_all(s, dt),
            effect_step(s.obstacle_opacity, HOLD_INVISIBILITY_DURATION, dt),
            effect_step(s.attracting_force, ATTRACTIVE_FORCE_DURATION, dt),
            false,
        ),
        s.hunter,
        dt,
        s.obstacles@.len(),
    )
}

/// `sf` is where a tick ends from `s`, the state after the capture rule; the
/// hunter's measured velocity is cleared.
pub open spec fn settled(s: State, dt: u64, sf: State) -> bool {
    let c = tick_impact(s, dt);
    &&& sf.obstacles@ == c.0
    &&& sf == (State {
        obstacles: sf.obstacles,
        obstacle_opacity: c.1,
        attracting_force: c.2,
        hunter: Hunter { velocity: Vec2 { x: 0, y: 0 }, ..s.hunter },
        ..s
    })
}

/// The velocity measured from a move of the hunter to `pos`, `last_dt`
/// microseconds after the last tick; a `last_dt` of zero counts as one
/// microsecond.
pub open spec fn measured_velocity(s: State, pos: Position) -> Velocity {
    let dt = if s.last_dt == 0 { 1int } else { s.last_dt as int };
    Vec2 {
        x: limit_speed(div_toward_zero_spec((pos.x - s.hunter.object.pos.x) * MICROS, dt)) as i64,
        y: limit_speed(div_toward_zero_spec((pos.y - s.hunter.object.pos.y) * MICROS, dt)) as i64,
    }
}

/// The hunter moved to `pos`; leaving the field resets the multiplier.
pub open spec fn moved_to(s: State, pos: Position) -> State {
    State {
        hunter: Hunter {
            object: Object { pos, ..s.hunter.object },
            velocity: measured_velocity(s, pos),
            ..s.hunter
        },
        score_coeff: if out_of_field(s.field, pos) { UNIT_COEFF } else { s.score_coeff },
        ..s
    }
}

/// The hunter's force field switched on or off; the hunter grows by half
/// while it is on.
pub open spec fn with_force(s: State, enabled: bool) -> State {
    let hs = base_half_size(s.field);
    State {
        hunter: Hunter {
            force: if enabled { HUNTER_FORCE } else { 0 },
            object: Object {
                half_size: (if enabled { hs * 3 / 2 } else { hs }) as i64,
                ..s.hunter.object
            },
            ..s.hunter
        },
        ..s
    }
}

impl Engine {
    fn pos_out_of_field(field: &Extent, pos: &Position) -> (r: bool)
        ensures
            r == out_of_field(*field, *pos),
    {
        pos.x < 0 || pos.x > field.x || pos.y < 0 || pos.y > field.y
    }

    /// The points that catching the prey gives in state `s`.
    pub fn capture_points(s: &State) -> (r: u32)
        ensures
            r == capture_points_spec(s.score_coeff, s.obstacle_opacity, s.attracting_force),
    {
        let mut m: u128 = s.score_coeff as u128;
        if !s.obstacle_opacity.is_pristine() {
            m = m * 2;
        }
        if !s.attracting_force.is_pristine() {
            m = m * 2;
        }
        let p = (SCORE_PER_PREY as u128 * m + (UNIT_COEFF / 2) as u128) / UNIT_COEFF as u128;
        if p > u32::MAX as u128 {
            u32::MAX
        } else {
            p as u32
        }
    }

    /// Update the game state by one tick of `dt` microseconds.
    ///
    /// If the returned value is the last game-state, the player is game-over
    /// and the engine holds no game until the next reset.
    pub fn update(&mut self, dt: u64) -> (r: Result<(), State>)
        requires
            old(self).wf(),
        ensures
            final(self).wf(),
            final(self).min_distance_spec() == old(self).min_distance_spec(),
            old(self).view_state() is None ==> r is Ok && final(self).view_state() is None,
            old(self).view_state() is Some ==> exists|s2: State|
                #![trigger tick_impact(s2, dt)]
                after_capture(
                    rewarded(old(self).view_state()->Some_0, dt),
                    s2,
                    old(self).min_distance_spec(),
                ) && match r {
                    Ok(_) => {
                        &&& !tick_impact(s2, dt).3
                        &&& final(self).view_state() is Some
                        &&& settled(s2, dt, final(self).view_state()->Some_0)
                    },
                    Err(sf) => {
                        &&& tick_impact(s2, dt).3
                        &&& final(self).view_state() is None
                        &&& settled(s2, dt, sf)
                    },
                },
    {
        let st = self.state.take();
        match st {
            None => Ok(()),
            Some(s0) => {
                let mut s = s0;
                s.last_dt = dt;
                if !Self::pos_out_of_field(&s.field, &s.hunter.object.pos) && speed_sq(
                    s.hunter.velocity,
                ) > MOVING_SPEED_SQ {
                    s.score_coeff = s.score_coeff.saturating_add(dt / 10);
                }
                assert(s == rewarded(s0, dt));
                let ghost s1 = s;
                if s.hunter.object.intersects(&s.prey) {
                    let points = Self::capture_points(&s);
                    s.score = s.score.saturating_add(points);
                    assert(s == scored(s1));
                    new_obstacle(&mut self.rng, &mut s, self.min_distance);
                }
                let ghost s2 = s;
                assert(after_capture(s1, s2, self.min_distance as int));
                advect_obstacles(&mut s, dt);
                assert(s.obstacles@ =~= advected_all(s2, dt));
                advance_effect(&mut s.obstacle_opacity, HOLD_INVISIBILITY_DURATION, dt);
                advance_effect(&mut s.attracting_force, ATTRACTIVE_FORCE_DURATION, dt);
                let dead = resolve_collisions(&mut s, dt);
                s.hunter.velocity = Vec2 { x: 0, y: 0 };
                assert(settled(s2, dt, s));
                if dead {
                    Err(s)
                } else {
                    self.state = Some(s);
                    Ok(())
                }
            },
        }
    }

    /// Moves the hunter to `pos`, which is not clamped into the field, and
    /// measures its velocity from the last tick's `dt`.
    pub fn set_hunter_pos(&mut self, pos: Position)
        requires
            old(self).wf(),
            pos.bounded(MAX_COORD as int),
        ensures
            final(self).wf(),
            final(self).min_distance_spec() == old(self).min_distance_spec(),
            match old(self).view_state() {
                Some(s) => final(self).view_state() == Some(moved_to(s, pos)),
                None => final(self).view_state() is None,
            },
    {
        let st = self.state.take();
        match st {
            None => {},
            Some(s0) => {
                let mut s = s0;
                let dt: i128 = if s.last_dt == 0 { 1 } else { s.last_dt as i128 };
                let dx = (pos.x as i128 - s.hunter.object.pos.x as i128) * MICROS as i128;
                let dy = (pos.y as i128 - s.hunter.object.pos.y as i128) * MICROS as i128;
                s.hunter.velocity = Vec2 {
                    x: limit_speed_exec(div_toward_zero(dx, dt)),
                    y: limit_speed_exec(div_toward_zero(dy, dt)),
                };
                s.hunter.object.pos = pos;
                if Self::pos_out_of_field(&s.field, &pos) {
                    s.score_coeff = UNIT_COEFF;
                }
                assert(s == moved_to(s0, pos));
                self.state = Some(s);
            },
        }
    }

    /// If enabled, a force field around the hunter repels obstacles, and the
    /// hunter grows by half.
    pub fn set_hunter_force(&mut self, enabled: bool)
        requires
            old(self).wf(),
        ensures
            final(self).wf(),
            final(self).min_distance_spec() == old(self).min_distance_spec(),
            match old(self).view_state() {
                Some(s) => final(self).view_state() == Some(with_force(s, enabled)),
                None => final(self).view_state() is None,
            },
    {
        let st = self.state.take();
        match st {
            None => {},
            Some(s0) => {
                let mut s = s0;
                proof {
                    lemma_base_half_size(s.field);
                }
                let hs = Self::hunter_half_size(&s.field);
                if enabled {
                    s.hunter.force = HUNTER_FORCE;
                    s.hunter.object.half_size = hs * 3 / 2;
                } else {
                    s.hunter.force = 0;
                    s.hunter.object.half_size = hs;
                }
                assert(s == with_force(s0, enabled));
                self.state = Some(s);
            },
        }
    }
}

} // verus!
