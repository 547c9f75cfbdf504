//! The timed effects and the hunter's collisions with obstacles.
use vstd::prelude::*;
use crate::geometry::{dist_sq, isqrt, len_sq, speed_sq, Vec2, Velocity, MAX_SPEED};
use crate::physics::{
    div_toward_zero, div_toward_zero_spec, lemma_root_unique, limit_speed, limit_speed_exec, root,
};
use crate::transition::{timer_add, Transition, TransitionDirection, TransitionState};
use crate::types::{Hunter, Obstacle, ObstacleKind, State};

verus! {

/// One tick of an effect transition that is held for `hold` microseconds
/// once finished: an idle one is turned forward again, a moving one
/// advances, and a finished one returns after `transition_time + hold`.
pub open spec fn effect_step(t: Transition, hold: u64, dt: u64) -> Transition {
    match t.state_spec() {
        TransitionState::Start => {
            if t.direction == TransitionDirection::ToFrom {
                t.reversed()
            } else {
                t
            }
        },
        TransitionState::InProgress => t.advanced(dt),
        TransitionState::Finished => {
            let held = Transition { state_time: timer_add(t.state_time, dt), ..t };
            if held.state_time >= t.transition_time + hold {
                if t.direction == TransitionDirection::FromTo {
                    held.reversed().advanced(dt)
                } else {
                    held.reversed()
                }
            } else {
                held
            }
        },
    }
}

/// The velocity of a special obstacle that the hunter hits: away from the
/// hunter at half the obstacle's former speed, plus the hunter's own
/// velocity. Where the centres coincide there is no direction, and only the
/// hunter's velocity is passed on.
pub open spec fn bounce_spec(o: Obstacle, h: Hunter) -> Velocity {
    let dx = o.object.pos.x - h.object.pos.x;
    let dy = o.object.pos.y - h.object.pos.y;
    let len = root(len_sq(dx, dy));
    let speed = root(len_sq(o.velocity.x as int, o.velocity.y as int));
    let bx = if len == 0 { 0 } else { div_toward_zero_spec(dx * speed, 2 * len) };
    let by = if len == 0 { 0 } else { div_toward_zero_spec(dy * speed, 2 * len) };
    Vec2 {
        x: limit_speed(bx + h.velocity.x) as i64,
        y: limit_speed(by + h.velocity.y) as i64,
    }
}

/// Starts an effect that has never been triggered.
pub open spec fn kicked(t: Transition, dt: u64) -> Transition {
    if t.is_pristine_spec() {
        t.advanced(dt)
    } else {
        t
    }
}

/// What the collision pass works on: the obstacles, the opacity and the
/// attracting-force transitions, and whether the game is over.
pub type Impact = (Seq<Obstacle>, Transition, Transition, bool);

/// The effect of obstacle `i` hitting, or not hitting, the hunter.
pub open spec fn hit_at(p: Impact, h: Hunter, i: int, dt: u64) -> Impact {
    let o = p.0[i];
    if o.object.intersects_spec(h.object) {
        match o.kind {
            ObstacleKind::Deadly => (p.0, p.1, p.2, true),
            ObstacleKind::InvisibiltySwitch => (
                p.0.update(i, Obstacle { velocity: bounce_spec(o, h), ..o }),
                kicked(p.1, dt),
                p.2,
                false,
            ),
            ObstacleKind::AttractiveForceSwitch => (
                p.0.update(i, Obstacle { velocity: bounce_spec(o, h), ..o }),
                p.1,
                kicked(p.2, dt),
                false,
            ),
        }
    } else {
        p
    }
}

/// The collision pass over the first `n` obstacles; it stops at the first
/// deadly hit.
pub open spec fn collided(start: Impact, h: Hunter, dt: u64, n: nat) -> Impact
    decreases n,
{
    if n == 0 {
        start
    } else {
        let p = collided(start, h, dt, (n - 1) as nat);
        if p.3 {
            p
        } else {
            hit_at(p, h, n - 1, dt)
        }
    }
}

proof fn lemma_collided_stops(start: Impact, h: Hunter, dt: u64, k: nat, n: nat)
    requires
        k <= n,
        collided(start, h, dt, k).3,
    ensures
        collided(start, h, dt, n) == collided(start, h, dt, k),
    decreases n - k,
{
    if k < n {
        lemma_collided_stops(start, h, dt, k, (n - 1) as nat);
    }
}

/// One tick of an effect transition; see `effect_step`.
pub(crate) fn advance_effect(t: &mut Transition, hold: u64, dt: u64)
    requires
        old(t).wf(),
    ensures
        *final(t) == effect_step(*old(t), hold, dt),
        final(t).wf(),
{
    match t.state() {
        TransitionState::Start => {
            if t.direction == TransitionDirection::ToFrom {
                t.reverse();
            }
        },
        TransitionState::InProgress => {
            t.advance(dt);
        },
        TransitionState::Finished => {
            t.state_time = t.state_time.saturating_add(dt);
            if t.state_time as u128 >= t.transition_time as u128 + hold as u128 {
                let dir = t.direction;
                t.reverse();
                if dir == TransitionDirection::FromTo {
                    t.advance(dt);
                }
            }
        },
    }
}

/// The velocity of a special obstacle after the hunter hits it; see
/// `bounce_spec`.
pub(crate) fn bounce_velocity(o: &Obstacle, h: &Hunter) -> (r: Velocity)
    requires
        o.object.wf(),
        o.velocity.bounded(MAX_SPEED as int),
        h.object.wf(),
        h.velocity.bounded(MAX_SPEED as int),
    ensures
        r == bounce_spec(*o, *h),
        r.bounded(MAX_SPEED as int),
{
    let d2 = dist_sq(o.object.pos, h.object.pos);
    let len = isqrt(d2);
    let v2 = speed_sq(o.velocity);
    let speed = isqrt(v2);
    proof {
        lemma_root_unique(d2 as int, len as int);
        lemma_root_unique(v2 as int, speed as int);
        if speed > 2_000_000_000_000 {
            assert(speed * speed > 4_000_000_000_000_000_000_000_000) by (nonlinear_arith)
                requires speed > 2_000_000_000_000;
        }
    }
    let dx = o.object.pos.x as i128 - h.object.pos.x as i128;
    let dy = o.object.pos.y as i128 - h.object.pos.y as i128;
    let sp = speed as i128;
    let (bx, by) = if len == 0 {
        (0i128, 0i128)
    } else {
        assert(-4_000_000_000_000_000_000_000_000 <= dx * sp <= 4_000_000_000_000_000_000_000_000) by (nonlinear_arith)
            requires -2_000_000_000_000 <= dx <= 2_000_000_000_000, 0 <= sp <= 2_000_000_000_000;
        assert(-4_000_000_000_000_000_000_000_000 <= dy * sp <= 4_000_000_000_000_000_000_000_000) by (nonlinear_arith)
            requires -2_000_000_000_000 <= dy <= 2_000_000_000_000, 0 <= sp <= 2_000_000_000_000;
        (div_toward_zero(dx * sp, 2 * len as i128), div_toward_zero(dy * sp, 2 * len as i128))
    };
    Vec2 {
        x: limit_speed_exec(bx + h.velocity.x as i128),
        y: limit_speed_exec(by + h.velocity.y as i128),
    }
}

/// Handles the obstacles that touch the hunter, in order, and stops at
/// the first deadly one. Returns whether the game is over.
pub(crate) fn resolve_collisions(s: &mut State, dt: u64) -> (dead: bool)
    requires
        old(s).wf(),
    ensures
        final(s).wf(),
        ({
            let c = collided(
                (old(s).obstacles@, old(s).obstacle_opacity, old(s).attracting_force, false),
                old(s).hunter,
                dt,
                old(s).obstacles@.len(),
            );
            &&& final(s).obstacles@ == c.0
            &&& final(s).obstacle_opacity == c.1
            &&& final(s).attracting_force == c.2
            &&& dead == c.3
        }),
        *final(s) == (State {
            obstacles: final(s).obstacles,
            obstacle_opacity: final(s).obstacle_opacity,
            attracting_force: final(s).attracting_force,
            ..*old(s)
        }),
{
    let ghost start: Impact = (
        s.obstacles@,
        s.obstacle_opacity,
        s.attracting_force,
        false,
    );
    let n = s.obstacles.len();
    let mut i: usize = 0;
    let mut dead = false;
    while !dead && i < n
        invariant
            s.wf(),
            n == s.obstacles@.len(),
            n == old(s).obstacles@.len(),
            0 <= i <= n,
            start == (old(s).obstacles@, old(s).obstacle_opacity, old(s).attracting_force, false),
            (s.obstacles@, s.obstacle_opacity, s.attracting_force, dead) == collided(
                start,
                old(s).hunter,
                dt,
                i as nat,
            ),
            *s == (State {
                obstacles: s.obstacles,
                obstacle_opacity: s.obstacle_opacity,
                attracting_force: s.attracting_force,
                ..*old(s)
            }),
        decreases n - i,
    {
        let o = s.obstacles[i];
        assert(s.obstacles@[i as int].wf_in(s.field));
        if o.object.intersects(&s.hunter.object) {
            match o.kind {
                ObstacleKind::Deadly => {
                    dead = true;
                },
                ObstacleKind::InvisibiltySwitch => {
                    let v = bounce_velocity(&o, &s.hunter);
                    s.obstacles.set(i, Obstacle { velocity: v, ..o });
                    if s.obstacle_opacity.is_pristine() {
                        s.obstacle_opacity.advance(dt);
                    }
                },
                ObstacleKind::AttractiveForceSwitch => {
                    let v = bounce_velocity(&o, &s.hunter);
                    s.obstacles.set(i, Obstacle { velocity: v, ..o });
                    if s.attracting_force.is_pristine() {
                        s.attracting_force.advance(dt);
                    }
                },
            }
        }
        proof {
            assert forall|j: int| 0 <= j < s.obstacles@.len() implies (#[trigger] s.obstacles@[j]).wf_in(
                s.field,
            ) by {}
            assert(s.obstacles@ =~= hit_at(
                collided(start, old(s).hunter, dt, i as nat),
                old(s).hunter,
                i as int,
                dt,
            ).0);
        }
        i = i + 1;
    }
    proof {
        if dead {
            lemma_collided_stops(start, old(s).hunter, dt, i as nat, n as nat);
        }
    }
    dead
}

} // verus!
