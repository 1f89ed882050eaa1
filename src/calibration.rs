//! The calibration procedure, one motor pulse at a time.
//!
//! The motor first seeks the calibration sensor, turning forward until it
//! fires. It then clears the sensor's active zone by a fixed number of steps,
//! during which the sensor is ignored, and finally counts the steps until the
//! sensor fires again: that count is the length of one rotation. An operator's
//! "enter" press, read once per pulse, cancels the seek and the count.
use vstd::prelude::*;

verus! {

/// Steps walked after the zero point is found, before counting starts.
pub const CLEARANCE_STEPS: u32 = 6400;

/// The largest rotation length that can be reported.
pub const MAX_ROTATION: u32 = 0x7fff_ffff;

/// Where the procedure stands.
#[derive(Clone, Copy, Debug, PartialEq, Eq, Structural)]
pub enum Calibration {
    /// Turning forward until the sensor fires.
    Seeking,
    /// Moving away from the zero point; this many steps are left.
    Clearing(u32),
    /// Counting the steps of one rotation; this many are counted so far.
    Counting(u32),
    /// The sensor fired again after this many counted steps.
    Done(u32),
    /// The operator cancelled.
    Cancelled,
    /// The count reached [`MAX_ROTATION`] without the sensor firing again.
    Overrun,
}

/// The state after one forward pulse from `c`, given whether the sensor fired
/// during it and whether "enter" was held.
pub open spec fn after_pulse(c: Calibration, hit: bool, cancel: bool) -> Calibration {
    match c {
        Calibration::Seeking => if hit {
            Calibration::Clearing(CLEARANCE_STEPS)
        } else if cancel {
            Calibration::Cancelled
        } else {
            Calibration::Seeking
        },
        Calibration::Clearing(left) => if left <= 1 {
            Calibration::Counting(0)
        } else {
            Calibration::Clearing((left - 1) as u32)
        },
        Calibration::Counting(n) => if hit {
            Calibration::Done((n + 1) as u32)
        } else if cancel {
            Calibration::Cancelled
        } else if n + 1 >= MAX_ROTATION {
            Calibration::Overrun
        } else {
            Calibration::Counting((n + 1) as u32)
        },
        _ => c,
    }
}

impl Calibration {
    /// A fresh procedure, about to seek the zero point.
    pub fn new() -> (c: Calibration)
        ensures
            c == Calibration::Seeking,
    {
        Calibration::Seeking
    }

    /// The counts stay within what a rotation length can hold.
    pub open spec fn wf(self) -> bool {
        match self {
            Calibration::Clearing(left) => left <= CLEARANCE_STEPS,
            Calibration::Counting(n) => n < MAX_ROTATION,
            Calibration::Done(n) => 0 < n <= MAX_ROTATION,
            _ => true,
        }
    }

    /// Whether the motor should take another pulse.
    pub fn wants_pulse(&self) -> (r: bool)
        ensures
            r == (self is Seeking || self is Clearing || self is Counting),
    {
        match self {
            Calibration::Seeking | Calibration::Clearing(_) | Calibration::Counting(_) => true,
            _ => false,
        }
    }

    /// Advances by one forward pulse.
    pub fn pulse(&mut self, hit: bool, cancel: bool)
        requires
            old(self).wf(),
        ensures
            *final(self) == after_pulse(*old(self), hit, cancel),
            final(self).wf(),
    {
        let next = match *self {
            Calibration::Seeking => if hit {
                Calibration::Clearing(CLEARANCE_STEPS)
            } else if cancel {
                Calibration::Cancelled
            } else {
                Calibration::Seeking
            },
            Calibration::Clearing(left) => if left <= 1 {
                Calibration::Counting(0)
            } else {
                Calibration::Clearing(left - 1)
            },
            Calibration::Counting(n) => if hit {
                Calibration::Done(n + 1)
            } else if cancel {
                Calibration::Cancelled
            } else if n + 1 >= MAX_ROTATION {
                Calibration::Overrun
            } else {
                Calibration::Counting(n + 1)
            },
            other => other,
        };
        *self = next;
    }

    /// The measured rotation length, once the procedure has finished.
    pub fn steps_per_rotation(&self) -> (r: Option<u32>)
        ensures
            r == (match *self {
                Calibration::Done(n) => Some(n),
                _ => None::<u32>,
            }),
    {
        match *self {
            Calibration::Done(n) => Some(n),
            _ => None,
        }
    }
}


/// The state after the pulses `events`, in order; each event is the sensor
/// reading and the "enter" reading of one pulse.
pub open spec fn after_pulses(c: Calibration, events: Seq<(bool, bool)>) -> Calibration
    decreases events.len(),
{
    if events.len() == 0 {
        c
    } else {
        after_pulses(after_pulse(c, events[0].0, events[0].1), events.subrange(1, events.len() as int))
    }
}

/// Pulses taken one run after another end where the joined run ends.
pub proof fn lemma_after_pulses_append(c: Calibration, a: Seq<(bool, bool)>, b: Seq<(bool, bool)>)
    ensures
        after_pulses(c, a + b) == after_pulses(after_pulses(c, a), b),
    decreases a.len(),
{
    if a.len() > 0 {
        let c1 = after_pulse(c, a[0].0, a[0].1);
        assert((a + b).subrange(1, (a + b).len() as int) =~= a.subrange(1, a.len() as int) + b);
        lemma_after_pulses_append(c1, a.subrange(1, a.len() as int), b);
    } else {
        assert(a + b =~= b);
    }
}

/// Clearing with `left` steps to go ends after exactly `left` pulses,
/// whatever the sensor and "enter" read.
pub proof fn lemma_clearing_runs_out(left: u32, events: Seq<(bool, bool)>)
    requires
        1 <= left,
        events.len() == left,
    ensures
        after_pulses(Calibration::Clearing(left), events) == Calibration::Counting(0),
    decreases left,
{
    let rest = events.subrange(1, events.len() as int);
    if left == 1 {
        assert(after_pulses(Calibration::Counting(0), rest) == Calibration::Counting(0));
    } else {
        lemma_clearing_runs_out((left - 1) as u32, rest);
    }
}

/// Counting from `n`, pulses without the sensor or "enter" add one each, and
/// the pulse on which the sensor fires again ends the count.
pub proof fn lemma_counting_until_hit(n: u32, events: Seq<(bool, bool)>)
    requires
        events.len() >= 1,
        n + events.len() <= MAX_ROTATION,
        events.last().0,
        forall|i: int| 0 <= i < events.len() - 1 ==> !events[i].0 && !events[i].1,
    ensures
        after_pulses(Calibration::Counting(n), events) == Calibration::Done((n + events.len()) as u32),
    decreases events.len(),
{
    let rest = events.subrange(1, events.len() as int);
    if events.len() == 1 {
        assert(after_pulses(Calibration::Done((n + 1) as u32), rest) == Calibration::Done((n + 1) as u32));
    } else {
        assert(!events[0].0 && !events[0].1);
        assert forall|i: int| 0 <= i < rest.len() - 1 implies !rest[i].0 && !rest[i].1 by {
            assert(rest[i] == events[i + 1]);
        }
        lemma_counting_until_hit((n + 1) as u32, rest);
    }
}

/// The procedure measures one rotation: once the sensor fires on the first
/// pulse, the clearance pulses follow (whatever they read), and then the
/// sensor next fires on the `k`-th pulse with "enter" never held, the
/// procedure ends with a rotation length of `k`. With a sensor that fires
/// every 3200 steps, and a clearance of two such rotations, `k` is 3200.
pub proof fn lemma_calibration_measures_rotation(events: Seq<(bool, bool)>, k: nat)
    requires
        1 <= k <= MAX_ROTATION,
        events.len() == 1 + CLEARANCE_STEPS + k,
        events[0].0,
        events.last().0,
        forall|i: int| 1 + CLEARANCE_STEPS <= i < events.len() - 1 ==> !events[i].0 && !events[i].1,
    ensures
        after_pulses(Calibration::Seeking, events) == Calibration::Done(k as u32),
{
    let first = events.subrange(0, 1);
    let clear = events.subrange(1, 1 + CLEARANCE_STEPS);
    let count = events.subrange(1 + CLEARANCE_STEPS, events.len() as int);
    assert(events =~= first + (clear + count));
    lemma_after_pulses_append(Calibration::Seeking, first, clear + count);
    assert(first.subrange(1, 1) =~= Seq::<(bool, bool)>::empty());
    assert(first[0] == events[0]);
    assert(after_pulses(Calibration::Clearing(CLEARANCE_STEPS), first.subrange(1, 1)) == Calibration::Clearing(
        CLEARANCE_STEPS,
    ));
    assert(after_pulses(Calibration::Seeking, first) == Calibration::Clearing(CLEARANCE_STEPS));
    lemma_after_pulses_append(Calibration::Clearing(CLEARANCE_STEPS), clear, count);
    lemma_clearing_runs_out(CLEARANCE_STEPS, clear);
    assert forall|i: int| 0 <= i < count.len() - 1 implies !count[i].0 && !count[i].1 by {
        assert(count[i] == events[i + 1 + CLEARANCE_STEPS]);
    }
    assert(count.last() == events.last());
    lemma_counting_until_hit(0, count);
}

} // verus!
