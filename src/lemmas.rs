//! Facts about whole games and ticks, proved from the engine's contracts.
use vstd::prelude::*;
use crate::effects::{collided, effect_step, hit_at, Impact};
use crate::engine::{
    advected_all, after_capture, capture_points_spec, captured, fresh_state, rewarded, scored,
    settled, tick_impact, ATTRACTIVE_FORCE_DURATION, HOLD_INVISIBILITY_DURATION,
};
use crate::physics::advected;
use crate::spawn::spawned_from;
use crate::geometry::{len_sq, Extent, Vec2};
use crate::transition::{Transition, TransitionDirection, TransitionState};
use crate::types::{inside_field, Hunter, ObstacleKind, State, UNIT_COEFF};

verus! {

/// A new game places the hunter wholly above and left of the field, so that
/// it touches neither the field nor the prey.
pub proof fn lemma_new_game_hunter_clear(field: Extent, s: State)
    requires
        fresh_state(field, s),
    ensures
        s.hunter.object.right_spec() < 0,
        s.hunter.object.bottom_spec() < 0,
        !s.hunter.object.intersects_spec(s.prey),
{
}

/// An obstacle spawned on a capture lies inside the field and at least the
/// minimum distance from the hunter.
pub proof fn lemma_spawn_clear_of_hunter(s1: State, s2: State, md: int)
    requires
        spawned_from(s1, s2, md),
    ensures
        inside_field(s2.obstacles@.last().object, s2.field),
        len_sq(
            s2.obstacles@.last().object.pos.x - s2.hunter.object.pos.x,
            s2.obstacles@.last().object.pos.y - s2.hunter.object.pos.y,
        ) >= md * md,
{
}

/// With a multiplier of one and no effect ever triggered, a capture is worth
/// exactly ten points.
pub proof fn lemma_plain_capture_scores_ten(s: State)
    requires
        s.score_coeff == UNIT_COEFF,
        s.obstacle_opacity.is_pristine_spec(),
        s.attracting_force.is_pristine_spec(),
        s.score + 10 <= u32::MAX,
    ensures
        capture_points_spec(s.score_coeff, s.obstacle_opacity, s.attracting_force) == 10,
        scored(s).score == s.score + 10,
{
}

proof fn lemma_collided_keeps_objects(start: Impact, h: Hunter, dt: u64, n: nat, j: int)
    requires
        n <= start.0.len(),
        0 <= j < start.0.len(),
    ensures
        collided(start, h, dt, n).0.len() == start.0.len(),
        collided(start, h, dt, n).0[j].object == start.0[j].object,
        collided(start, h, dt, n).0[j].kind == start.0[j].kind,
    decreases n,
{
    if n > 0 {
        lemma_collided_keeps_objects(start, h, dt, (n - 1) as nat, j);
    }
}

proof fn lemma_collided_dead_stays(start: Impact, h: Hunter, dt: u64, k: nat, n: nat)
    requires
        k <= n,
        collided(start, h, dt, k).3,
    ensures
        collided(start, h, dt, n).3,
    decreases n - k,
{
    if k < n {
        lemma_collided_dead_stays(start, h, dt, k, (n - 1) as nat);
    }
}

/// A tick in which a deadly obstacle, once moved, touches the hunter ends the
/// game.
pub proof fn lemma_deadly_contact_ends_game(s: State, dt: u64, i: int)
    requires
        0 <= i < s.obstacles@.len(),
        advected_all(s, dt)[i].kind == ObstacleKind::Deadly,
        advected_all(s, dt)[i].object.intersects_spec(s.hunter.object),
    ensures
        tick_impact(s, dt).3,
{
    let start: Impact = (
        advected_all(s, dt),
        effect_step(s.obstacle_opacity, HOLD_INVISIBILITY_DURATION, dt),
        effect_step(s.attracting_force, ATTRACTIVE_FORCE_DURATION, dt),
        false,
    );
    let n = s.obstacles@.len();
    lemma_collided_keeps_objects(start, s.hunter, dt, i as nat, i);
    let p = collided(start, s.hunter, dt, i as nat);
    assert(collided(start, s.hunter, dt, (i + 1) as nat) == (if p.3 {
        p
    } else {
        hit_at(p, s.hunter, i, dt)
    }));
    assert(collided(start, s.hunter, dt, (i + 1) as nat).3);
    lemma_collided_dead_stays(start, s.hunter, dt, (i + 1) as nat, n);
}

/// An effect transition that a tick of zero length leaves as it is: not
/// idle in reverse, and not due to turn back.
pub open spec fn effect_at_rest(t: Transition, hold: u64) -> bool {
    &&& !(t.state_spec() == TransitionState::Start && t.direction == TransitionDirection::ToFrom)
    &&& !(t.state_spec() == TransitionState::Finished && t.state_time >= t.transition_time + hold)
}

/// A state in which nothing moves on a tick of zero length: the hunter has
/// not moved since the last tick of zero length, neither force field acts,
/// every obstacle is clear of the field's edges and of the hunter, the prey
/// is not caught, and no effect is about to turn.
pub open spec fn at_rest(s: State) -> bool {
    &&& s.last_dt == 0
    &&& s.hunter.velocity == Vec2 { x: 0, y: 0 }
    &&& s.hunter.force == 0
    &&& s.attracting_force.current <= 0
    &&& !captured(s)
    &&& forall|i: int|
        0 <= i < s.obstacles@.len() ==> {
            let o = #[trigger] s.obstacles@[i];
            &&& o.object.half_size < o.object.pos.x < s.field.x - o.object.half_size
            &&& o.object.half_size < o.object.pos.y < s.field.y - o.object.half_size
            &&& !o.object.intersects_spec(s.hunter.object)
        }
    &&& effect_at_rest(s.obstacle_opacity, HOLD_INVISIBILITY_DURATION)
    &&& effect_at_rest(s.attracting_force, ATTRACTIVE_FORCE_DURATION)
}

proof fn lemma_effect_rest(t: Transition, hold: u64)
    requires
        t.wf(),
        effect_at_rest(t, hold),
    ensures
        effect_step(t, hold, 0) == t,
{
    if t.state_spec() == TransitionState::InProgress {
        assert(t.step_spec(0) == 0);
    }
}

proof fn lemma_collided_untouched(start: Impact, h: Hunter, dt: u64, n: nat)
    requires
        n <= start.0.len(),
        !start.3,
        forall|i: int| 0 <= i < start.0.len() ==> !(#[trigger] start.0[i]).object.intersects_spec(h.object),
    ensures
        collided(start, h, dt, n) == start,
    decreases n,
{
    if n > 0 {
        lemma_collided_untouched(start, h, dt, (n - 1) as nat);
    }
}

/// Two ticks of zero length in a row give the same state: a state at rest
/// (as any tick of zero length leaves a quiet game) is a fixed point of such
/// a tick, whatever the minimum spawn distance.
pub proof fn lemma_zero_tick_fixed_point(s: State, s2: State, md: int)
    requires
        s.wf(),
        at_rest(s),
        after_capture(rewarded(s, 0), s2, md),
    ensures
        s2 == s,
        !tick_impact(s2, 0).3,
        settled(s2, 0, s),
{
    assert(rewarded(s, 0) == s);
    let obs = advected_all(s, 0);
    assert forall|i: int| 0 <= i < s.obstacles@.len() implies obs[i] == s.obstacles@[i] by {
        let o = s.obstacles@[i];
        assert(o.wf_in(s.field));
        assert(obs[i] == advected(o, s.hunter, s.attracting_force.current as int, s.field, 0));
        assert(o.velocity.x * 0 == 0 && o.velocity.y * 0 == 0);
    }
    assert(obs =~= s.obstacles@);
    lemma_effect_rest(s.obstacle_opacity, HOLD_INVISIBILITY_DURATION);
    lemma_effect_rest(s.attracting_force, ATTRACTIVE_FORCE_DURATION);
    let start: Impact = (obs, s.obstacle_opacity, s.attracting_force, false);
    lemma_collided_untouched(start, s.hunter, 0, s.obstacles@.len());
}

} // verus!
