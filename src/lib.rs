//! The simulation core of the `catchit` chase game.
//!
//! All lengths are fixed-point integers in thousandths of a field unit, and
//! all times are microseconds.

pub mod effects;
pub mod engine;
pub mod geometry;
pub mod lemmas;
pub mod physics;
pub mod random;
pub mod spawn;
pub mod transition;
pub mod types;

pub use engine::Engine;
pub use geometry::{CollisionShape, Extent, Object, Position, Pt, Scalar, Vec2, Velocity};
pub use transition::{Transition, TransitionDirection, TransitionState};
pub use types::{Hunter, Obstacle, ObstacleKind, State};
