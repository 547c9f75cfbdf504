//! The game-state data model.
use vstd::prelude::*;
use crate::geometry::{Extent, Object, Position, Scalar, Velocity, MAX_SPEED};
use crate::transition::Transition;

verus! {

#[derive(Debug, Clone, Copy, PartialEq, Eq, Structural)]
pub enum ObstacleKind {
    /// Enables a temporary attractive force
    AttractiveForceSwitch,
    /// Causes all other obstacles to hide themselves for a while
    InvisibiltySwitch,
    /// Kills the player
    Deadly,
}

/// An obstacle the hunter can collide with
#[derive(Debug, Clone, Copy, PartialEq, Eq, Structural)]
pub struct Obstacle {
    pub kind: ObstacleKind,
    pub object: Object,
    pub velocity: Velocity,
}

#[derive(Debug, Clone, Copy, PartialEq, Eq, Structural)]
pub struct Hunter {
    pub object: Object,
    /// Strength of the hunter's force field, in thousandths per second
    pub force: Scalar,
    pub velocity: Velocity,
}

/// It maintains the state of the game and expects to be updated with
/// time-delta information to compute the next state.
///
/// Coordinates of the playing field start at 0 and grow; all lengths are in
/// thousandths of a field unit and all times in microseconds.
#[derive(Debug, Clone, PartialEq)]
pub struct State {
    /// The playing field
    pub field: Extent,
    /// The player's character
    pub hunter: Hunter,
    /// Hunted by the player's character
    pub prey: Object,
    /// Obstacles the hunter must avoid to prevent game-over
    pub obstacles: Vec<Obstacle>,
    /// score of the current game
    pub score: u32,
    /// multiply prey score with the given value, in millionths
    pub score_coeff: u64,
    /// transition between opaque and invisible obstacles
    pub obstacle_opacity: Transition,
    /// transition between no attracting force and maximum one
    pub attracting_force: Transition,
    /// Last delta-time during update, in microseconds
    pub last_dt: u64,
}

/// Smallest side of a playing field.
pub const MIN_FIELD_SIZE: i64 = 320_000;

/// Largest side of a playing field.
pub const MAX_FIELD_SIZE: i64 = 1_000_000_000;

/// Largest magnitude of a force, in thousandths per second.
pub const MAX_FORCE: i64 = 1_000_000;

/// A score multiplier of one, in millionths.
pub const UNIT_COEFF: u64 = 1_000_000;

pub const MIN_FIELD_MARGIN: i64 = 30_000;

pub open spec fn field_ok(field: Extent) -> bool {
    &&& MIN_FIELD_SIZE <= field.x <= MAX_FIELD_SIZE
    &&& MIN_FIELD_SIZE <= field.y <= MAX_FIELD_SIZE
}

pub open spec fn min_side(field: Extent) -> int {
    if field.x <= field.y { field.x as int } else { field.y as int }
}

/// Half the size of the hunter, from a margin that grows with the field.
pub open spec fn base_half_size(field: Extent) -> int {
    let m = min_side(field) * 5 / 100;
    let margin = if m >= MIN_FIELD_MARGIN { m } else { MIN_FIELD_MARGIN as int };
    (margin - MIN_FIELD_MARGIN / 6) / 2
}

/// The object's bounding box lies within `[0, field]`.
pub open spec fn inside_field(o: Object, field: Extent) -> bool {
    &&& o.half_size <= o.pos.x <= field.x - o.half_size
    &&& o.half_size <= o.pos.y <= field.y - o.half_size
}

/// A position outside `[0, field]`.
pub open spec fn out_of_field(field: Extent, p: Position) -> bool {
    p.x < 0 || p.x > field.x || p.y < 0 || p.y > field.y
}

impl Obstacle {
    pub open spec fn wf_in(self, field: Extent) -> bool {
        &&& self.object.wf()
        &&& inside_field(self.object, field)
        &&& self.velocity.bounded(MAX_SPEED as int)
    }
}

impl Hunter {
    pub open spec fn wf_in(self, field: Extent) -> bool {
        &&& self.object.wf()
        &&& base_half_size(field) <= self.object.half_size <= base_half_size(field) * 3 / 2
        &&& 0 <= self.force <= MAX_FORCE
        &&& self.velocity.bounded(MAX_SPEED as int)
    }
}

impl State {
    pub open spec fn wf(self) -> bool {
        &&& field_ok(self.field)
        &&& self.hunter.wf_in(self.field)
        &&& self.prey.wf()
        &&& self.prey.half_size == base_half_size(self.field)
        &&& inside_field(self.prey, self.field)
        &&& forall|i: int|
            0 <= i < self.obstacles@.len() ==> (#[trigger] self.obstacles@[i]).wf_in(self.field)
        &&& self.obstacle_opacity.wf()
        &&& self.attracting_force.wf()
        &&& -MAX_FORCE <= self.attracting_force.v1 <= MAX_FORCE
        &&& -MAX_FORCE <= self.attracting_force.v2 <= MAX_FORCE
        &&& self.score_coeff >= UNIT_COEFF
    }
}

/// The hunter's half-size lies between a small positive bound and a
/// twenty-fifth of the field's smaller side.
pub proof fn lemma_base_half_size(field: Extent)
    requires
        field_ok(field),
    ensures
        12_500 <= base_half_size(field),
        base_half_size(field) * 25 <= min_side(field),
{
}

} // verus!
