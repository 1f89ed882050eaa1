//! Absolute motor positions on a ring of `steps_per_rotation` steps.
use vstd::prelude::*;

verus! {

/// The way the motor turns: clockwise counts positions up, counter-clockwise down.
#[derive(Clone, Copy, Debug, PartialEq, Eq, Structural)]
pub enum Direction {
    Clockwise,
    CounterClockwise,
}

impl Direction {
    /// The signed position change of one step in this direction.
    pub open spec fn sign(self) -> int {
        match self {
            Direction::Clockwise => 1,
            Direction::CounterClockwise => -1,
        }
    }

    /// `+1` for clockwise, `-1` for counter-clockwise.
    pub fn unit(self) -> (r: i32)
        ensures
            r == self.sign(),
    {
        match self {
            Direction::Clockwise => 1,
            Direction::CounterClockwise => -1,
        }
    }
}

/// The wraparound rule applied to a raw position `p`: one rotation is taken
/// off above `steps_per_rotation`, one is added below zero.
pub open spec fn wrapped(p: int, steps_per_rotation: int) -> int {
    if p > steps_per_rotation {
        p - steps_per_rotation
    } else if p < 0 {
        p + steps_per_rotation
    } else {
        p
    }
}

/// Applies a signed move `delta` to the position `pos` and wraps the result
/// by the rule of [`wrapped`].
pub fn wrap_position(pos: i32, delta: i32, steps_per_rotation: i32) -> (r: i32)
    requires
        steps_per_rotation > 0,
        0 <= pos <= steps_per_rotation,
    ensures
        r == wrapped(pos + delta, steps_per_rotation as int),
{
    let p: i64 = pos as i64 + delta as i64;
    let s: i64 = steps_per_rotation as i64;
    if p > s {
        (p - s) as i32
    } else if p < 0 {
        (p + s) as i32
    } else {
        p as i32
    }
}

/// A position moved by at most two rotations either way, whose raw sum lies
/// in `[-steps_per_rotation, 2 * steps_per_rotation)` and is not exactly one
/// rotation, wraps back into `[0, steps_per_rotation)`. (A raw sum of exactly
/// one rotation is left at `steps_per_rotation` by the rule, and one further
/// out is taken back by one rotation only.)
pub proof fn lemma_wrap_stays_in_rotation(pos: int, delta: int, steps_per_rotation: int)
    requires
        steps_per_rotation > 0,
        0 <= pos < steps_per_rotation,
        -2 * steps_per_rotation <= delta <= 2 * steps_per_rotation,
        -steps_per_rotation <= pos + delta < 2 * steps_per_rotation,
        pos + delta != steps_per_rotation,
    ensures
        0 <= wrapped(pos + delta, steps_per_rotation) < steps_per_rotation,
{
}

/// Steps needed to go from `from` to `to` on the ring, turning in `direction`.
pub open spec fn ring_distance(from: int, to: int, steps_per_rotation: int, direction: Direction) -> int {
    match direction {
        Direction::Clockwise => if to >= from {
            to - from
        } else {
            to - from + steps_per_rotation
        },
        Direction::CounterClockwise => if from >= to {
            from - to
        } else {
            from - to + steps_per_rotation
        },
    }
}

/// Counts the steps from `current` to `target` in `direction` by stepping a
/// simulated position around the ring until it reaches the target.
pub fn needed_steps(current: i32, target: i32, steps_per_rotation: i32, direction: Direction) -> (steps: u32)
    requires
        steps_per_rotation > 0,
        0 <= current < steps_per_rotation,
        0 <= target < steps_per_rotation,
    ensures
        steps == ring_distance(current as int, target as int, steps_per_rotation as int, direction),
{
    let mut pos: i32 = current;
    let mut steps: u32 = 0;
    while pos != target
        invariant
            steps_per_rotation > 0,
            0 <= pos < steps_per_rotation,
            0 <= target < steps_per_rotation,
            steps + ring_distance(pos as int, target as int, steps_per_rotation as int, direction)
                == ring_distance(current as int, target as int, steps_per_rotation as int, direction),
            0 <= ring_distance(current as int, target as int, steps_per_rotation as int, direction)
                < steps_per_rotation,
        decreases ring_distance(pos as int, target as int, steps_per_rotation as int, direction),
    {
        pos = match direction {
            Direction::Clockwise => if pos + 1 >= steps_per_rotation {
                0
            } else {
                pos + 1
            },
            Direction::CounterClockwise => if pos == 0 {
                steps_per_rotation - 1
            } else {
                pos - 1
            },
        };
        steps = steps + 1;
    }
    steps
}

/// The direction and step count of a move between two absolute positions.
#[derive(Clone, Copy, Debug, PartialEq, Eq, Structural)]
pub struct TravelPlan {
    pub direction: Direction,
    pub steps: u32,
}

/// The shorter of the two ways round: clockwise only when strictly shorter.
pub open spec fn shorter_way(current: int, target: int, steps_per_rotation: int) -> TravelPlan {
    let right = ring_distance(current, target, steps_per_rotation, Direction::Clockwise);
    let left = ring_distance(current, target, steps_per_rotation, Direction::CounterClockwise);
    if right < left {
        TravelPlan { direction: Direction::Clockwise, steps: right as u32 }
    } else {
        TravelPlan { direction: Direction::CounterClockwise, steps: left as u32 }
    }
}

/// Plans the move from `current` to `target`: both ways are counted and the
/// shorter is taken, counter-clockwise on a tie. `None` when the rotation is
/// empty or either position lies outside `[0, steps_per_rotation)`.
pub fn plan_travel(current: i32, target: i32, steps_per_rotation: i32) -> (r: Option<TravelPlan>)
    ensures
        r.is_none() <==> !(steps_per_rotation > 0 && 0 <= current < steps_per_rotation && 0
            <= target < steps_per_rotation),
        r matches Some(plan) ==> {
            let right = ring_distance(current as int, target as int, steps_per_rotation as int, Direction::Clockwise);
            let left = ring_distance(current as int, target as int, steps_per_rotation as int, Direction::CounterClockwise);
            &&& plan == shorter_way(current as int, target as int, steps_per_rotation as int)
            &&& plan.steps <= right
            &&& plan.steps <= left
            &&& (right == left ==> plan.direction == Direction::CounterClockwise)
            &&& plan.steps == ring_distance(current as int, target as int, steps_per_rotation as int, plan.direction)
        },
{
    if !(steps_per_rotation > 0 && 0 <= current && current < steps_per_rotation && 0 <= target
        && target < steps_per_rotation) {
        return None;
    }
    let right = needed_steps(current, target, steps_per_rotation, Direction::Clockwise);
    let left = needed_steps(current, target, steps_per_rotation, Direction::CounterClockwise);
    if right < left {
        Some(TravelPlan { direction: Direction::Clockwise, steps: right })
    } else {
        Some(TravelPlan { direction: Direction::CounterClockwise, steps: left })
    }
}


/// Where `steps` single steps (fewer than a rotation) in `direction` lead
/// from `from` on the ring.
pub open spec fn ring_landing(from: int, steps: int, steps_per_rotation: int, direction: Direction) -> int {
    match direction {
        Direction::Clockwise => if from + steps >= steps_per_rotation {
            from + steps - steps_per_rotation
        } else {
            from + steps
        },
        Direction::CounterClockwise => if from - steps < 0 {
            from - steps + steps_per_rotation
        } else {
            from - steps
        },
    }
}

/// Walking a travel plan lands exactly on its target, and takes less than a
/// full rotation.
pub proof fn lemma_plan_lands_on_target(current: i32, target: i32, steps_per_rotation: i32)
    requires
        steps_per_rotation > 0,
        0 <= current < steps_per_rotation,
        0 <= target < steps_per_rotation,
    ensures
        ({
            let plan = shorter_way(current as int, target as int, steps_per_rotation as int);
            &&& 0 <= plan.steps < steps_per_rotation
            &&& ring_landing(current as int, plan.steps as int, steps_per_rotation as int, plan.direction)
                == target
        }),
{
}

} // verus!
