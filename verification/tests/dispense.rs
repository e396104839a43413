use node_diagnostics::dispenser::{
    choose_velocity, next_step, DispenseController, DispenseAction, DispensePhase, DispenseTiming, DispenseVerdict,
    Observation, Velocity, CHECK_SETTLE_NS, MOVE_POLL_NS, RETRACT_SETTLE_NS, SETTLE_NS,
};

const MS: u64 = 1_000_000;

fn timing() -> DispenseTiming {
    DispenseTiming { timeout_ns: 30_000 * MS, start_buffer_ns: 1_000 * MS }
}

fn at(clock_ns: u64) -> Observation {
    Observation {
        clock_ns,
        below_check: false,
        above_max: false,
        above_min: true,
        reached_target: false,
    }
}

fn started(start: u64) -> DispensePhase {
    DispensePhase::Sampling { start, last_update: start, checks: 0 }
}

#[test]
fn startup_sequence() {
    let t = timing();
    let (p, a) = next_step(&t, DispensePhase::Idle, &at(0));
    assert_eq!(a, DispenseAction::SetVelocity(Velocity::Max));
    let (p, a) = next_step(&t, p, &at(1));
    assert_eq!(a, DispenseAction::Sleep(SETTLE_NS));
    assert_eq!(SETTLE_NS, 2_000 * MS);
    let (p, a) = next_step(&t, p, &at(2));
    assert_eq!(a, DispenseAction::MeasureStartingWeight);
    let (p, a) = next_step(&t, p, &at(3));
    assert_eq!(a, DispenseAction::Advance);
    let (p, a) = next_step(&t, p, &at(5_000));
    assert_eq!(a, DispenseAction::TakeSample);
    assert_eq!(p, started(5_000));
}

#[test]
fn nothing_happens_inside_the_start_buffer() {
    let t = timing();
    let mut obs = at(900 * MS);
    obs.below_check = true;
    let (p, a) = next_step(&t, started(0), &obs);
    assert_eq!(a, DispenseAction::TakeSample);
    assert_eq!(p, started(0));
    // exactly at the buffer is still inside it
    let (_, a) = next_step(&t, started(0), &Observation { clock_ns: 1_000 * MS, ..obs });
    assert_eq!(a, DispenseAction::TakeSample);
}

#[test]
fn velocity_update_then_advance() {
    let t = timing();
    let start = 0;
    let phase = DispensePhase::Sampling { start, last_update: 1_000 * MS, checks: 0 };
    let (p, a) = next_step(&t, phase, &at(1_030 * MS));
    assert_eq!(a, DispenseAction::SetVelocity(Velocity::Proportional));
    assert_eq!(
        p,
        DispensePhase::SpeedSetting { start, now: 1_030 * MS, checks: 0, below_check: false }
    );
    let (p, a) = next_step(&t, p, &at(1_031 * MS));
    assert_eq!(a, DispenseAction::Advance);
    assert_eq!(
        p,
        DispensePhase::SpeedAdvancing {
            start,
            last_update: 1_031 * MS,
            now: 1_030 * MS,
            checks: 0,
            below_check: false
        }
    );
    let (p, a) = next_step(&t, p, &at(1_032 * MS));
    assert_eq!(a, DispenseAction::TakeSample);
    assert_eq!(p, DispensePhase::Sampling { start, last_update: 1_031 * MS, checks: 0 });
}

#[test]
fn no_velocity_update_within_the_update_interval() {
    let t = timing();
    let phase = DispensePhase::Sampling { start: 0, last_update: 2_000 * MS, checks: 0 };
    let (p, a) = next_step(&t, phase, &at(2_025 * MS));
    assert_eq!(a, DispenseAction::TakeSample);
    assert_eq!(p, phase);
}

#[test]
fn velocity_choice() {
    assert_eq!(choose_velocity(true, true), Velocity::Max);
    assert_eq!(choose_velocity(true, false), Velocity::Max);
    assert_eq!(choose_velocity(false, true), Velocity::Proportional);
    assert_eq!(choose_velocity(false, false), Velocity::Min);
}

#[test]
fn successful_check_ends_with_retract() {
    let t = timing();
    let mut obs = at(5_000 * MS);
    obs.below_check = true;
    let phase = DispensePhase::Sampling { start: 0, last_update: 4_990 * MS, checks: 0 };
    let (p, a) = next_step(&t, phase, &obs);
    assert_eq!(a, DispenseAction::AbruptStop);
    assert_eq!(p, DispensePhase::CheckStopping { start: 0, last_update: 4_990 * MS, checks: 1 });
    let (p, a) = next_step(&t, p, &at(5_001 * MS));
    assert_eq!(a, DispenseAction::Sleep(CHECK_SETTLE_NS));
    assert_eq!(CHECK_SETTLE_NS, 50 * MS);
    let (p, a) = next_step(&t, p, &at(5_051 * MS));
    assert_eq!(a, DispenseAction::MeasureMedian);
    let mut median = at(5_100 * MS);
    median.reached_target = true;
    let (p, a) = next_step(&t, p, &median);
    assert_eq!(a, DispenseAction::Retract);
    assert_eq!(p, DispensePhase::Retracting(DispenseVerdict::Success));
    let (p, a) = next_step(&t, p, &at(5_101 * MS));
    assert_eq!(a, DispenseAction::Sleep(RETRACT_SETTLE_NS));
    assert_eq!(RETRACT_SETTLE_NS, 25 * MS);
    let (p, a) = next_step(&t, p, &at(5_130 * MS));
    assert_eq!(a, DispenseAction::WaitForMove(MOVE_POLL_NS));
    assert_eq!(MOVE_POLL_NS, 10 * MS);
    let (p, a) = next_step(&t, p, &at(5_200 * MS));
    assert_eq!(a, DispenseAction::Finish(DispenseVerdict::Success));
    let (p2, a2) = next_step(&t, p, &at(9_999 * MS));
    assert_eq!((p2, a2), (p, DispenseAction::Finish(DispenseVerdict::Success)));
}

#[test]
fn check_after_velocity_update_uses_the_sample() {
    let t = timing();
    let phase = DispensePhase::SpeedAdvancing {
        start: 0,
        last_update: 1_500 * MS,
        now: 1_499 * MS,
        checks: 0,
        below_check: true,
    };
    let (p, a) = next_step(&t, phase, &at(1_502 * MS));
    assert_eq!(a, DispenseAction::AbruptStop);
    assert_eq!(p, DispensePhase::CheckStopping { start: 0, last_update: 1_500 * MS, checks: 1 });
}

#[test]
fn missed_check_resumes_and_resets_the_counter() {
    let t = timing();
    let phase = DispensePhase::CheckWeighing { start: 0, last_update: 7 * MS, checks: 1 };
    let (p, a) = next_step(&t, phase, &at(6_000 * MS));
    assert_eq!(a, DispenseAction::Resume);
    assert_eq!(p, DispensePhase::Resuming { start: 0, last_update: 7 * MS, checks: 1 });
    let (p, a) = next_step(&t, p, &at(6_010 * MS));
    assert_eq!(a, DispenseAction::TakeSample);
    assert_eq!(p, DispensePhase::Sampling { start: 0, last_update: 7 * MS, checks: 0 });
}

#[test]
fn third_check_counts_as_success() {
    let t = timing();
    let phase = DispensePhase::CheckWeighing { start: 0, last_update: 0, checks: 3 };
    let (p, a) = next_step(&t, phase, &at(6_000 * MS));
    assert_eq!(a, DispenseAction::Retract);
    assert_eq!(p, DispensePhase::Retracting(DispenseVerdict::Success));
}

#[test]
fn timeout_stops_then_retracts() {
    let t = timing();
    let phase = DispensePhase::Sampling { start: 10, last_update: 30_000 * MS, checks: 0 };
    let (p, a) = next_step(&t, phase, &at(30_000 * MS + 11));
    assert_eq!(a, DispenseAction::AbruptStop);
    assert_eq!(p, DispensePhase::TimeoutStopping);
    let (p, a) = next_step(&t, p, &at(30_001 * MS));
    assert_eq!(a, DispenseAction::Retract);
    assert_eq!(p, DispensePhase::Retracting(DispenseVerdict::Timeout));
    let (p, _) = next_step(&t, p, &at(30_002 * MS));
    let (p, _) = next_step(&t, p, &at(30_003 * MS));
    let (_, a) = next_step(&t, p, &at(30_004 * MS));
    assert_eq!(a, DispenseAction::Finish(DispenseVerdict::Timeout));
}

#[test]
fn timeout_is_strictly_after_the_deadline() {
    let t = timing();
    let phase = DispensePhase::Resuming { start: 0, last_update: 0, checks: 1 };
    let (_, a) = next_step(&t, phase, &at(30_000 * MS));
    assert_eq!(a, DispenseAction::TakeSample);
    let (_, a) = next_step(&t, phase, &at(30_000 * MS + 1));
    assert_eq!(a, DispenseAction::AbruptStop);
}

#[test]
fn clock_before_start_counts_as_no_time() {
    let t = timing();
    let mut obs = at(5);
    obs.below_check = true;
    let phase = DispensePhase::Sampling { start: 40_000 * MS, last_update: 40_000 * MS, checks: 0 };
    let (p, a) = next_step(&t, phase, &obs);
    assert_eq!(a, DispenseAction::TakeSample);
    assert_eq!(p, phase);
}

#[test]
fn controller_runs_a_whole_dispense() {
    let t = timing();
    let mut c = DispenseController::new(t);
    assert_eq!(c.phase(), DispensePhase::Idle);
    assert_eq!(c.phase().start(), None);
    let mut actions = Vec::new();
    for clock in [0, 1, 2, 3] {
        actions.push(c.step(&at(clock * MS)));
    }
    assert_eq!(
        actions,
        vec![
            DispenseAction::SetVelocity(Velocity::Max),
            DispenseAction::Sleep(SETTLE_NS),
            DispenseAction::MeasureStartingWeight,
            DispenseAction::Advance,
        ]
    );
    // first move done at 10 ms: the dispense starts
    assert_eq!(c.step(&at(10 * MS)), DispenseAction::TakeSample);
    assert_eq!(c.phase().start(), Some(10 * MS));
    // a sample inside the start buffer
    assert_eq!(c.step(&at(500 * MS)), DispenseAction::TakeSample);
    // a sample after it: velocity update, clamped to the maximum
    let mut obs = at(1_500 * MS);
    obs.above_max = true;
    assert_eq!(c.step(&obs), DispenseAction::SetVelocity(Velocity::Max));
    assert_eq!(c.step(&at(1_501 * MS)), DispenseAction::Advance);
    assert_eq!(c.step(&at(1_502 * MS)), DispenseAction::TakeSample);
    // below the check weight, but within the update interval: a check
    let mut obs = at(1_510 * MS);
    obs.below_check = true;
    assert_eq!(c.step(&obs), DispenseAction::AbruptStop);
    assert_eq!(c.step(&at(1_511 * MS)), DispenseAction::Sleep(CHECK_SETTLE_NS));
    assert_eq!(c.step(&at(1_561 * MS)), DispenseAction::MeasureMedian);
    // the check misses: resume, and the next check starts over
    assert_eq!(c.step(&at(1_600 * MS)), DispenseAction::Resume);
    assert_eq!(c.step(&at(1_601 * MS)), DispenseAction::TakeSample);
    assert_eq!(
        c.phase(),
        DispensePhase::Sampling { start: 10 * MS, last_update: 1_501 * MS, checks: 0 }
    );
    // more than the update interval since the last update: velocity first,
    // then the check the sample called for
    let mut obs = at(1_610 * MS);
    obs.below_check = true;
    assert_eq!(c.step(&obs), DispenseAction::SetVelocity(Velocity::Proportional));
    assert_eq!(c.step(&at(1_611 * MS)), DispenseAction::Advance);
    assert_eq!(c.step(&at(1_612 * MS)), DispenseAction::AbruptStop);
    assert_eq!(
        c.phase(),
        DispensePhase::CheckStopping { start: 10 * MS, last_update: 1_611 * MS, checks: 1 }
    );
    assert_eq!(c.step(&at(1_613 * MS)), DispenseAction::Sleep(CHECK_SETTLE_NS));
    assert_eq!(c.step(&at(1_661 * MS)), DispenseAction::MeasureMedian);
    let mut median = at(1_700 * MS);
    median.reached_target = true;
    assert_eq!(c.step(&median), DispenseAction::Retract);
    assert_eq!(c.step(&at(1_701 * MS)), DispenseAction::Sleep(RETRACT_SETTLE_NS));
    assert_eq!(c.step(&at(1_726 * MS)), DispenseAction::WaitForMove(MOVE_POLL_NS));
    assert_eq!(c.step(&at(1_800 * MS)), DispenseAction::Finish(DispenseVerdict::Success));
    assert_eq!(c.phase(), DispensePhase::Finished(DispenseVerdict::Success));
}
