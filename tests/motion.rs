use rig_control::add;
use rig_control::calibration::{Calibration, CLEARANCE_STEPS};
use rig_control::position::{needed_steps, plan_travel, wrap_position, Direction, TravelPlan};
use rig_control::walk::{Jog, Walk};

#[test]
fn it_works() {
    let result = add(2, 2);
    assert_eq!(result, 4);
}

#[test]
fn wrap_keeps_positions_inside_rotation() {
    assert_eq!(wrap_position(10, 5, 100), 15);
    assert_eq!(wrap_position(90, 20, 100), 10);
    assert_eq!(wrap_position(5, -10, 100), 95);
    assert_eq!(wrap_position(0, -100, 100), 0);
    assert_eq!(wrap_position(99, 100, 100), 99);
    for pos in 0..100 {
        for delta in -100..100 {
            let raw = pos + delta;
            if raw != 100 {
                let r = wrap_position(pos, delta, 100);
                assert!(r >= 0 && r < 100, "pos {} delta {} gave {}", pos, delta, r);
            }
        }
    }
}

#[test]
fn wrap_rule_leaves_exactly_one_rotation() {
    assert_eq!(wrap_position(0, 100, 100), 100);
}

#[test]
fn travel_counter_clockwise_when_shorter() {
    assert_eq!(needed_steps(10, 90, 100, Direction::Clockwise), 80);
    assert_eq!(needed_steps(10, 90, 100, Direction::CounterClockwise), 20);
    assert_eq!(
        plan_travel(10, 90, 100),
        Some(TravelPlan { direction: Direction::CounterClockwise, steps: 20 })
    );
}

#[test]
fn travel_clockwise_when_shorter() {
    assert_eq!(
        plan_travel(90, 10, 100),
        Some(TravelPlan { direction: Direction::Clockwise, steps: 20 })
    );
    assert_eq!(
        plan_travel(7, 7, 100),
        Some(TravelPlan { direction: Direction::CounterClockwise, steps: 0 })
    );
}

#[test]
fn travel_tie_goes_counter_clockwise() {
    assert_eq!(
        plan_travel(0, 50, 100),
        Some(TravelPlan { direction: Direction::CounterClockwise, steps: 50 })
    );
}

#[test]
fn travel_picks_no_longer_way_everywhere() {
    for current in 0..40 {
        for target in 0..40 {
            let plan = plan_travel(current, target, 40).unwrap();
            let right = needed_steps(current, target, 40, Direction::Clockwise);
            let left = needed_steps(current, target, 40, Direction::CounterClockwise);
            assert!(plan.steps <= right && plan.steps <= left);
            if right == left {
                assert_eq!(plan.direction, Direction::CounterClockwise);
            }
        }
    }
}

#[test]
fn travel_rejects_positions_outside_rotation() {
    assert_eq!(plan_travel(100, 5, 100), None);
    assert_eq!(plan_travel(5, -1, 100), None);
    assert_eq!(plan_travel(0, 0, 0), None);
}

fn run_walk(mut w: Walk, hits_at: &[u32]) -> (u32, i32, bool) {
    let mut issued = 0u32;
    while let Some(_dir) = w.next_step() {
        let hit = hits_at.contains(&issued);
        w.record_step(hit);
        issued += 1;
    }
    let (net, hit) = w.outcome();
    (issued, net, hit)
}

#[test]
fn walk_issues_exactly_the_requested_steps() {
    let w = Walk::new(Direction::Clockwise, Some(5), 200);
    assert_eq!(run_walk(w, &[]), (5, 5, false));
    let w = Walk::new(Direction::CounterClockwise, Some(7), 200);
    assert_eq!(run_walk(w, &[]), (7, -7, false));
    let w = Walk::new(Direction::Clockwise, Some(0), 200);
    assert_eq!(run_walk(w, &[]), (0, 0, false));
}

#[test]
fn walk_without_distance_turns_one_rotation() {
    let w = Walk::new(Direction::Clockwise, None, 200);
    assert_eq!(run_walk(w, &[]), (200, 200, false));
}

#[test]
fn walk_restarts_count_at_calibration_hit() {
    // steps 0..10, the sensor fires on step 3: steps 3..10 remain counted
    let w = Walk::new(Direction::Clockwise, Some(10), 200);
    assert_eq!(run_walk(w, &[3]), (10, 7, true));
    let w = Walk::new(Direction::CounterClockwise, Some(10), 200);
    assert_eq!(run_walk(w, &[1, 8]), (10, -2, true));
    let w = Walk::new(Direction::Clockwise, Some(10), 200);
    assert_eq!(run_walk(w, &[9]), (10, 1, true));
}

#[test]
fn jog_lands_on_wrapped_position() {
    let mut j = Jog::new();
    j.record_walk(200, false);
    j.record_walk(200, false);
    assert_eq!(j.net, 400);
    j.record_walk(150, true);
    assert_eq!(j.net, 150);
    assert_eq!(j.landing(100, 200), 50);
    let mut j = Jog::new();
    j.record_walk(-30, false);
    assert_eq!(j.landing(10, 200), 180);
    let mut j = Jog::new();
    j.record_walk(i32::MAX, false);
    j.record_walk(i32::MAX, false);
    assert_eq!(j.net, i32::MAX);
}

fn calibrate(start: u64, period: u64, cancel_after: Option<u64>) -> (Calibration, u64) {
    let mut c = Calibration::new();
    let mut pos = start;
    let mut pulses = 0u64;
    while c.wants_pulse() {
        pos += 1;
        pulses += 1;
        let hit = pos % period == 0;
        let cancel = cancel_after.map_or(false, |n| pulses > n);
        c.pulse(hit, cancel);
    }
    (c, pulses)
}

#[test]
fn calibration_counts_one_rotation_after_clearance() {
    let (c, pulses) = calibrate(1000, 3200, None);
    assert_eq!(c, Calibration::Done(3200));
    assert_eq!(c.steps_per_rotation(), Some(3200));
    // 2200 to find zero, the clearance, then one rotation
    assert_eq!(pulses, 2200 + CLEARANCE_STEPS as u64 + 3200);
}

#[test]
fn calibration_counts_other_rotation_lengths() {
    let (c, _) = calibrate(0, 6400, None);
    assert_eq!(c.steps_per_rotation(), Some(6400));
    let (c, _) = calibrate(17, 1600, None);
    assert_eq!(c.steps_per_rotation(), Some(1600));
}

#[test]
fn calibration_cancelled_by_enter() {
    let (c, pulses) = calibrate(1, 3200, Some(10));
    assert_eq!(c, Calibration::Cancelled);
    assert_eq!(pulses, 11);
    assert_eq!(c.steps_per_rotation(), None);
}

#[test]
fn calibration_ignores_enter_while_clearing() {
    let mut c = Calibration::new();
    c.pulse(true, false);
    assert_eq!(c, Calibration::Clearing(CLEARANCE_STEPS));
    c.pulse(false, true);
    assert_eq!(c, Calibration::Clearing(CLEARANCE_STEPS - 1));
    c.pulse(true, true);
    assert_eq!(c, Calibration::Clearing(CLEARANCE_STEPS - 2));
}
