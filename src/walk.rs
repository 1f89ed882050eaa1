//! Step accounting for one motor walk.
//!
//! A walk issues a fixed number of single steps in one direction. Each step
//! reports whether the calibration sensor fired during its pulse. The walk's
//! net delta counts the steps since the last calibration hit: a hit resets the
//! accumulator to zero before that step's own delta is added.
use vstd::prelude::*;
use crate::position::{wrap_position, wrapped, Direction};

verus! {

/// The largest walk whose net delta still fits an `i32`.
pub const MAX_WALK: u32 = 0x7fff_ffff;

/// Net delta after the steps whose sensor readings are `hits`, in order.
pub open spec fn walk_net(direction: Direction, hits: Seq<bool>) -> int
    decreases hits.len(),
{
    if hits.len() == 0 {
        0
    } else {
        let before = walk_net(direction, hits.drop_last());
        (if hits.last() {
            0
        } else {
            before
        }) + direction.sign()
    }
}

/// Whether any of the steps saw the calibration sensor fire.
pub open spec fn any_hit(hits: Seq<bool>) -> bool {
    exists|i: int| 0 <= i < hits.len() && hits[i]
}

/// A walk in progress: how many steps are still to be issued, and what the
/// issued ones have added up to.
pub struct Walk {
    pub direction: Direction,
    pub total: u32,
    pub remaining: u32,
    pub net_delta: i32,
    pub hit_calibration: bool,
    /// The sensor readings of the steps issued so far.
    pub hits: Ghost<Seq<bool>>,
}

impl Walk {
    /// The bookkeeping agrees with the readings recorded so far.
    pub open spec fn wf(&self) -> bool {
        &&& self.total <= MAX_WALK
        &&& self.remaining <= self.total
        &&& self.hits@.len() + self.remaining == self.total
        &&& self.net_delta == walk_net(self.direction, self.hits@)
        &&& self.hit_calibration == any_hit(self.hits@)
    }

    /// Starts a walk of `distance` steps, or of one full rotation when no
    /// distance is given.
    pub fn new(direction: Direction, distance: Option<u32>, steps_per_rotation: u32) -> (w: Walk)
        requires
            distance.unwrap_or(steps_per_rotation) <= MAX_WALK,
        ensures
            w.wf(),
            w.direction == direction,
            w.total == distance.unwrap_or(steps_per_rotation),
            w.remaining == w.total,
            w.hits@ == Seq::<bool>::empty(),
            w.net_delta == 0,
            !w.hit_calibration,
    {
        let total = match distance {
            Some(d) => d,
            None => steps_per_rotation,
        };
        Walk {
            direction,
            total,
            remaining: total,
            net_delta: 0,
            hit_calibration: false,
            hits: Ghost(Seq::empty()),
        }
    }

    /// The direction of the next step to issue, or `None` once the walk has
    /// issued all of its steps.
    pub fn next_step(&self) -> (r: Option<Direction>)
        ensures
            r == (if self.remaining > 0 {
                Some(self.direction)
            } else {
                None::<Direction>
            }),
    {
        if self.remaining > 0 {
            Some(self.direction)
        } else {
            None
        }
    }

    /// Records one issued step and whether the calibration sensor fired
    /// during its pulse.
    pub fn record_step(&mut self, hit: bool)
        requires
            old(self).wf(),
            old(self).remaining > 0,
        ensures
            final(self).wf(),
            final(self).direction == old(self).direction,
            final(self).total == old(self).total,
            final(self).remaining == old(self).remaining - 1,
            final(self).hits@ == old(self).hits@.push(hit),
            final(self).net_delta == (if hit {
                0
            } else {
                old(self).net_delta as int
            }) + old(self).direction.sign(),
            final(self).hit_calibration == (old(self).hit_calibration || hit),
    {
        let ghost new_hits = self.hits@.push(hit);
        proof {
            assert(new_hits.drop_last() =~= self.hits@);
            lemma_net_bounded(self.direction, self.hits@);
            if hit {
                assert(new_hits[new_hits.len() - 1]);
            } else if any_hit(new_hits) {
                let i = choose|i: int| 0 <= i < new_hits.len() && new_hits[i];
                assert(self.hits@[i]);
            }
            if self.hit_calibration {
                let i = choose|i: int| 0 <= i < self.hits@.len() && self.hits@[i];
                assert(new_hits[i]);
            }
        }
        let base: i32 = if hit {
            0
        } else {
            self.net_delta
        };
        self.net_delta = base + self.direction.unit();
        self.hit_calibration = self.hit_calibration || hit;
        self.remaining = self.remaining - 1;
        self.hits = Ghost(new_hits);
    }

    /// The walk's outcome: net delta and whether the calibration sensor fired.
    pub fn outcome(&self) -> (r: (i32, bool))
        ensures
            r == (self.net_delta, self.hit_calibration),
    {
        (self.net_delta, self.hit_calibration)
    }
}

/// The net delta never exceeds the number of steps taken.
pub proof fn lemma_net_bounded(direction: Direction, hits: Seq<bool>)
    ensures
        -hits.len() <= walk_net(direction, hits) <= hits.len(),
    decreases hits.len(),
{
    if hits.len() > 0 {
        lemma_net_bounded(direction, hits.drop_last());
    }
}

/// After a calibration hit at step `i` and none later, the net delta counts
/// exactly the steps from `i` on: the accumulator restarted at that hit.
pub proof fn lemma_net_restarts_at_last_hit(direction: Direction, hits: Seq<bool>, i: int)
    requires
        0 <= i < hits.len(),
        hits[i],
        forall|j: int| i < j < hits.len() ==> !hits[j],
    ensures
        walk_net(direction, hits) == (hits.len() - i) * direction.sign(),
    decreases hits.len(),
{
    if i < hits.len() - 1 {
        let shorter = hits.drop_last();
        assert forall|j: int| i < j < shorter.len() implies !shorter[j] by {
            assert(shorter[j] == hits[j]);
        }
        lemma_net_restarts_at_last_hit(direction, shorter, i);
        assert((hits.len() - 1 - i) * direction.sign() + direction.sign() == (hits.len() - i)
            * direction.sign()) by (nonlinear_arith);
    } else {
        assert(hits.last());
    }
}

/// Without any calibration hit the net delta is the full step count in the
/// walk's direction.
pub proof fn lemma_net_without_hits(direction: Direction, hits: Seq<bool>)
    requires
        forall|j: int| 0 <= j < hits.len() ==> !hits[j],
    ensures
        walk_net(direction, hits) == hits.len() * direction.sign(),
    decreases hits.len(),
{
    if hits.len() > 0 {
        let shorter = hits.drop_last();
        assert forall|j: int| 0 <= j < shorter.len() implies !shorter[j] by {
            assert(shorter[j] == hits[j]);
        }
        lemma_net_without_hits(direction, shorter);
        assert(!hits.last());
        assert((hits.len() - 1) * direction.sign() + direction.sign() == hits.len()
            * direction.sign()) by (nonlinear_arith);
    }
}

/// A walk started with `Some(n)` and driven by `next_step` / `record_step`
/// until `next_step` returns `None` has issued exactly `n` steps.
pub proof fn lemma_finished_walk_issued_all(w: Walk)
    requires
        w.wf(),
        w.remaining == 0,
    ensures
        w.hits@.len() == w.total,
{
}

} // verus!

verus! {

/// The motion of a manual jog: full-rotation walks repeated while the
/// operator holds enter. A walk that saw the calibration sensor restarts the
/// count, as each walk's own steps do.
#[derive(Clone, Copy, Debug, PartialEq, Eq, Structural)]
pub struct Jog {
    pub net: i32,
}

/// The jog count after a walk with net delta `delta`, held to the `i32` range.
pub open spec fn jog_after(net: int, delta: int, hit: bool) -> int {
    let raw = (if hit {
        0
    } else {
        net
    }) + delta;
    if raw > i32::MAX {
        i32::MAX as int
    } else if raw < i32::MIN {
        i32::MIN as int
    } else {
        raw
    }
}

impl Jog {
    /// A jog that has not moved yet.
    pub fn new() -> (j: Jog)
        ensures
            j.net == 0,
    {
        Jog { net: 0 }
    }

    /// Adds one walk's outcome.
    pub fn record_walk(&mut self, delta: i32, hit: bool)
        ensures
            final(self).net == jog_after(old(self).net as int, delta as int, hit),
    {
        let base: i64 = if hit {
            0
        } else {
            self.net as i64
        };
        let raw: i64 = base + delta as i64;
        self.net = if raw > i32::MAX as i64 {
            i32::MAX
        } else if raw < i32::MIN as i64 {
            i32::MIN
        } else {
            raw as i32
        };
    }

    /// The position the jog ends at, starting from `current`.
    pub fn landing(&self, current: i32, steps_per_rotation: i32) -> (r: i32)
        requires
            steps_per_rotation > 0,
            0 <= current <= steps_per_rotation,
        ensures
            r == wrapped(current + self.net, steps_per_rotation as int),
    {
        wrap_position(current, self.net, steps_per_rotation)
    }
}

} // verus!
