//! A bounded, time-driven, reversible scalar animator.
//!
//! Values are fixed-point integers and times are microseconds, so every
//! comparison against the end points is exact.
use vstd::prelude::*;

verus! {

/// Largest magnitude of an end point of a transition.
pub const MAX_LEVEL: i64 = 1_000_000_000_000;

#[derive(Debug, Clone, Copy, PartialEq, Eq, Structural)]
pub enum TransitionState {
    /// Transition is at start, which is the case right after calling `new()`
    Start,
    /// We are neither finished, nor at the start
    InProgress,
    /// We are finished
    Finished,
}

#[derive(Debug, Clone, Copy, PartialEq, Eq, Structural)]
pub enum TransitionDirection {
    FromTo,
    ToFrom,
}

#[derive(Debug, Clone, Copy, PartialEq, Eq, Structural)]
pub struct Transition {
    pub v1: i64,
    pub v2: i64,
    pub current: i64,
    /// Time it takes to make the transition, in microseconds
    pub transition_time: u64,
    pub direction: TransitionDirection,
    /// Microseconds spent since the phase began; helps to determine how long
    /// a state is held
    pub state_time: u64,
}

pub open spec fn min_int(a: int, b: int) -> int {
    if a <= b { a } else { b }
}

pub open spec fn max_int(a: int, b: int) -> int {
    if a >= b { a } else { b }
}

/// Adds `dt` to a timer that stops at the largest `u64`.
pub open spec fn timer_add(t: u64, dt: u64) -> u64 {
    if t + dt <= u64::MAX { (t + dt) as u64 } else { u64::MAX }
}

pub open spec fn flipped(d: TransitionDirection) -> TransitionDirection {
    match d {
        TransitionDirection::FromTo => TransitionDirection::ToFrom,
        TransitionDirection::ToFrom => TransitionDirection::FromTo,
    }
}

impl Transition {
    pub open spec fn wf(self) -> bool {
        &&& -MAX_LEVEL <= self.v1 <= MAX_LEVEL
        &&& -MAX_LEVEL <= self.v2 <= MAX_LEVEL
        &&& self.transition_time > 0
        &&& self.in_bounds()
    }

    /// `current` lies between the two end points.
    pub open spec fn in_bounds(self) -> bool {
        min_int(self.v1 as int, self.v2 as int) <= self.current <= max_int(
            self.v1 as int,
            self.v2 as int,
        )
    }

    pub open spec fn from_spec(self) -> i64 {
        match self.direction {
            TransitionDirection::FromTo => self.v1,
            TransitionDirection::ToFrom => self.v2,
        }
    }

    pub open spec fn to_spec(self) -> i64 {
        match self.direction {
            TransitionDirection::FromTo => self.v2,
            TransitionDirection::ToFrom => self.v1,
        }
    }

    pub open spec fn state_spec(self) -> TransitionState {
        let to = self.to_spec();
        let from = self.from_spec();
        if to > from {
            if self.current >= to {
                TransitionState::Finished
            } else if self.current <= from {
                TransitionState::Start
            } else {
                TransitionState::InProgress
            }
        } else if self.current <= to {
            TransitionState::Finished
        } else if self.current >= from {
            TransitionState::Start
        } else {
            TransitionState::InProgress
        }
    }

    pub open spec fn is_pristine_spec(self) -> bool {
        self.state_spec() == TransitionState::Start && self.direction
            == TransitionDirection::FromTo
    }

    /// The distance covered in `dt` microseconds, rounded down.
    pub open spec fn step_spec(self, dt: u64) -> int {
        let span = if self.to_spec() > self.from_spec() {
            self.to_spec() - self.from_spec()
        } else {
            self.from_spec() - self.to_spec()
        };
        (span * dt) / (self.transition_time as int)
    }

    /// `current` after `dt` microseconds: it moves towards `to()` and stops there.
    pub open spec fn advanced_current(self, dt: u64) -> int {
        if self.to_spec() > self.from_spec() {
            min_int(self.current + self.step_spec(dt), self.to_spec() as int)
        } else {
            max_int(self.current - self.step_spec(dt), self.to_spec() as int)
        }
    }

    pub open spec fn advanced(self, dt: u64) -> Transition {
        Transition {
            current: self.advanced_current(dt) as i64,
            state_time: timer_add(self.state_time, dt),
            ..self
        }
    }

    pub open spec fn reversed(self) -> Transition {
        Transition {
            direction: flipped(self.direction),
            state_time: if self.state_spec() == TransitionState::Finished {
                0
            } else {
                self.state_time
            },
            ..self
        }
    }

    /// The transition after advancing by each time step of `dts` in turn.
    pub open spec fn advanced_all(self, dts: Seq<u64>) -> Transition
        decreases dts.len(),
    {
        if dts.len() == 0 {
            self
        } else {
            self.advanced(dts[0]).advanced_all(dts.drop_first())
        }
    }

    pub open spec fn new_spec(from: i64, to: i64, transition_time: u64) -> Transition {
        Transition {
            v1: from,
            v2: to,
            current: from,
            transition_time,
            direction: TransitionDirection::FromTo,
            state_time: 0,
        }
    }

    pub fn new(from: i64, to: i64, transition_time: u64) -> (r: Transition)
        requires
            -MAX_LEVEL <= from <= MAX_LEVEL,
            -MAX_LEVEL <= to <= MAX_LEVEL,
            transition_time > 0,
        ensures
            r.wf(),
            r == Transition::new_spec(from, to, transition_time),
            r.v1 == from && r.v2 == to && r.current == from,
            r.transition_time == transition_time,
            r.direction == TransitionDirection::FromTo,
            r.state_time == 0,
    {
        Transition {
            v1: from,
            v2: to,
            current: from,
            transition_time,
            direction: TransitionDirection::FromTo,
            state_time: 0,
        }
    }

    pub fn from(&self) -> (r: i64)
        ensures
            r == self.from_spec(),
    {
        match self.direction {
            TransitionDirection::FromTo => self.v1,
            TransitionDirection::ToFrom => self.v2,
        }
    }

    pub fn to(&self) -> (r: i64)
        ensures
            r == self.to_spec(),
    {
        match self.direction {
            TransitionDirection::FromTo => self.v2,
            TransitionDirection::ToFrom => self.v1,
        }
    }

    pub fn state(&self) -> (r: TransitionState)
        ensures
            r == self.state_spec(),
    {
        let to = self.to();
        let from = self.from();
        if to > from {
            if self.current >= to {
                TransitionState::Finished
            } else if self.current <= from {
                TransitionState::Start
            } else {
                TransitionState::InProgress
            }
        } else if self.current <= to {
            TransitionState::Finished
        } else if self.current >= from {
            TransitionState::Start
        } else {
            TransitionState::InProgress
        }
    }

    pub fn is_pristine(&self) -> (r: bool)
        ensures
            r == self.is_pristine_spec(),
    {
        self.state() == TransitionState::Start && self.direction == TransitionDirection::FromTo
    }

    /// Move the transition towards the finished state. `dt` is the time in
    /// microseconds since the last call; `state_time` advances by it as well.
    pub fn advance(&mut self, dt: u64) -> (r: &mut Self)
        requires
            old(self).wf(),
        ensures
            *r == old(self).advanced(dt),
            r.wf(),
            *final(self) == *final(r),
    {
        self.state_time = self.state_time.saturating_add(dt);
        let to = self.to();
        let from = self.from();
        let span: u128 = if to > from {
            (to as i128 - from as i128) as u128
        } else {
            (from as i128 - to as i128) as u128
        };
        assert(span * (dt as u128) <= 2_000_000_000_000 * 0xffff_ffff_ffff_ffff) by (nonlinear_arith)
            requires span <= 2_000_000_000_000;
        let prod: u128 = span * (dt as u128);
        let step: u128 = prod / (self.transition_time as u128);
        assert(step <= prod) by (nonlinear_arith)
            requires step as int == prod as int / (self.transition_time as int), self.transition_time > 0, prod >= 0;
        let cur = self.current as i128;
        if to > from {
            let next: i128 = cur + step as i128;
            if next > to as i128 {
                self.current = to;
            } else {
                self.current = next as i64;
            }
        } else {
            let next: i128 = cur - step as i128;
            if next < to as i128 {
                self.current = to;
            } else {
                self.current = next as i64;
            }
        }
        self
    }

    /// Reverse direction, and reset `state_time` if we are finished.
    pub fn reverse(&mut self) -> (r: &mut Self)
        requires
            old(self).wf(),
        ensures
            *r == old(self).reversed(),
            r.wf(),
            *final(self) == *final(r),
    {
        if self.state() == TransitionState::Finished {
            self.state_time = 0;
        }
        self.direction = match self.direction {
            TransitionDirection::FromTo => TransitionDirection::ToFrom,
            TransitionDirection::ToFrom => TransitionDirection::FromTo,
        };
        self
    }
}

/// Advancing never moves `current` out of the range of the two end points,
/// whatever the sequence of time steps.
pub proof fn lemma_advance_stays_in_range(t: Transition, dts: Seq<u64>)
    requires
        t.wf(),
    ensures
        t.advanced_all(dts).wf(),
        min_int(t.v1 as int, t.v2 as int) <= t.advanced_all(dts).current <= max_int(
            t.v1 as int,
            t.v2 as int,
        ),
    decreases dts.len(),
{
    if dts.len() > 0 {
        lemma_advanced_wf(t, dts[0]);
        lemma_advance_stays_in_range(t.advanced(dts[0]), dts.drop_first());
    }
}

/// One step of `advance` keeps a well-formed transition well-formed.
pub proof fn lemma_advanced_wf(t: Transition, dt: u64)
    requires
        t.wf(),
    ensures
        t.advanced(dt).wf(),
        t.advanced(dt).v1 == t.v1 && t.advanced(dt).v2 == t.v2,
{
    let span = if t.to_spec() > t.from_spec() {
        t.to_spec() - t.from_spec()
    } else {
        t.from_spec() - t.to_spec()
    };
    assert(span * dt >= 0) by (nonlinear_arith)
        requires span >= 0, dt >= 0;
    assert(t.step_spec(dt) >= 0) by (nonlinear_arith)
        requires span * dt >= 0, t.transition_time > 0, t.step_spec(dt) == (span * dt) / (t.transition_time as int);
}

} // verus!
