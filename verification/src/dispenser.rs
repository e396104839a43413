//! The decisions of a closed-loop dispense.
//!
//! A dispense drives a motor that feeds material off a scale until the scale
//! has lost the requested weight. The motor, the scale, the clock and the
//! weight arithmetic live with the caller; this module decides, after each
//! completed step, what the caller does next. The caller reports what it
//! observed (a clock reading and the outcome of the weight comparisons) and
//! receives the next phase and the next action.
use vstd::prelude::*;

verus! {

/// Pause that lets button noise settle before the starting weight is taken.
pub const SETTLE_NS: u64 = 2_000_000_000;

/// Minimum time between two velocity updates.
pub const SPEED_UPDATE_NS: u64 = 25_000_000;

/// Pause between stopping the motor and weighing a check.
pub const CHECK_SETTLE_NS: u64 = 50_000_000;

/// Pause after the retract move was issued.
pub const RETRACT_SETTLE_NS: u64 = 25_000_000;

/// Polling period while waiting for the retract move to finish.
pub const MOVE_POLL_NS: u64 = 10_000_000;

/// The time limits of a dispense, in nanoseconds.
#[derive(Clone, Copy, Debug, PartialEq, Eq, Structural)]
pub struct DispenseTiming {
    /// The dispense gives up once this much time has passed since it started.
    pub timeout_ns: u64,
    /// Neither velocity updates nor checks happen before this much time has
    /// passed since the dispense started.
    pub start_buffer_ns: u64,
}

/// How a dispense ended.
#[derive(Clone, Copy, Debug, PartialEq, Eq, Structural)]
pub enum DispenseVerdict {
    Success,
    Timeout,
}

/// The velocity the motor is set to.
#[derive(Clone, Copy, Debug, PartialEq, Eq, Structural)]
pub enum Velocity {
    /// The configured maximum velocity.
    Max,
    /// The velocity proportional to the weight still to be dispensed.
    Proportional,
    /// The configured minimum velocity.
    Min,
}

/// What the caller does next.
#[derive(Clone, Copy, Debug, PartialEq, Eq, Structural)]
pub enum DispenseAction {
    /// Set the motor velocity.
    SetVelocity(Velocity),
    /// Sleep for the given number of nanoseconds.
    Sleep(u64),
    /// Take the median starting weight and feed it to the filter.
    MeasureStartingWeight,
    /// Move the motor forward by one feed length.
    Advance,
    /// Wait for the next sampling tick, read and filter the weight, record it.
    TakeSample,
    /// Stop the motor at once.
    AbruptStop,
    /// Take the median weight and record it.
    MeasureMedian,
    /// Restart the filter from the last median and move forward by one feed length.
    Resume,
    /// Move the motor back by the retract length.
    Retract,
    /// Wait for the motor to finish its move, polling with the given period.
    WaitForMove(u64),
    /// The dispense is over.
    Finish(DispenseVerdict),
}

/// Where a dispense stands, between two actions. Clock values are readings
/// of the caller's monotonic clock, in nanoseconds.
#[derive(Clone, Copy, Debug, PartialEq, Eq, Structural)]
pub enum DispensePhase {
    /// Nothing done yet.
    Idle,
    /// The initial velocity is being set.
    SettingInitialVelocity,
    /// Waiting for button noise to settle.
    Settling,
    /// The starting weight is being taken.
    Taring,
    /// The first forward move is being issued.
    Priming,
    /// A sample is being taken.
    Sampling { start: u64, last_update: u64, checks: u32 },
    /// A new velocity is being set after the sample taken at `now`.
    SpeedSetting { start: u64, now: u64, checks: u32, below_check: bool },
    /// The forward move after a velocity update is being issued.
    SpeedAdvancing { start: u64, last_update: u64, now: u64, checks: u32, below_check: bool },
    /// The motor is being stopped for a check.
    CheckStopping { start: u64, last_update: u64, checks: u32 },
    /// Waiting for the scale to settle before a check.
    CheckSettling { start: u64, last_update: u64, checks: u32 },
    /// The check's median weight is being taken.
    CheckWeighing { start: u64, last_update: u64, checks: u32 },
    /// The filter is being restarted and the motor moved on after a failed check.
    Resuming { start: u64, last_update: u64, checks: u32 },
    /// The motor is being stopped because time ran out.
    TimeoutStopping,
    /// The retract move is being issued.
    Retracting(DispenseVerdict),
    /// Waiting after the retract move was issued.
    RetractSettling(DispenseVerdict),
    /// Waiting for the retract move to finish.
    AwaitingMove(DispenseVerdict),
    /// The dispense is over.
    Finished(DispenseVerdict),
}

/// What the caller observed when the last action completed.
#[derive(Clone, Copy, Debug, PartialEq, Eq, Structural)]
pub struct Observation {
    /// The clock, read right after the action completed.
    pub clock_ns: u64,
    /// After a sample: the filtered weight is at or below the starting weight
    /// less the target weight plus the check offset.
    pub below_check: bool,
    /// After a sample: the proportional velocity exceeds the maximum velocity.
    pub above_max: bool,
    /// After a sample: the proportional velocity exceeds the minimum velocity.
    pub above_min: bool,
    /// After a median: the median weight is at or below the starting weight
    /// less the target weight.
    pub reached_target: bool,
}

/// Time from `earlier` to `later`, zero if the clock reads earlier.
pub open spec fn elapsed(later: u64, earlier: u64) -> int {
    if later >= earlier { later - earlier } else { 0 }
}

/// The velocity chosen from the proportional velocity's comparisons: the
/// maximum above it, the proportional one between, the minimum below.
pub open spec fn chosen_velocity(above_max: bool, above_min: bool) -> Velocity {
    if above_max {
        Velocity::Max
    } else if above_min {
        Velocity::Proportional
    } else {
        Velocity::Min
    }
}

/// The end of a pass: time out when more than the timeout has passed since
/// the start, else reset the check counter and take the next sample.
pub open spec fn end_of_pass(timing: DispenseTiming, start: u64, last_update: u64, clock: u64) -> (
    DispensePhase,
    DispenseAction,
) {
    if elapsed(clock, start) > timing.timeout_ns {
        (DispensePhase::TimeoutStopping, DispenseAction::AbruptStop)
    } else {
        (DispensePhase::Sampling { start, last_update, checks: 0 }, DispenseAction::TakeSample)
    }
}

/// After the velocity decision of a pass whose sample was taken at `now`:
/// check when the sample was below the check weight after the start buffer,
/// else end the pass with the latest clock reading.
pub open spec fn after_velocity(
    timing: DispenseTiming,
    start: u64,
    last_update: u64,
    now: u64,
    checks: u32,
    below_check: bool,
    clock: u64,
) -> (DispensePhase, DispenseAction) {
    if below_check && elapsed(now, start) > timing.start_buffer_ns {
        (
            DispensePhase::CheckStopping { start, last_update, checks: (checks + 1) as u32 },
            DispenseAction::AbruptStop,
        )
    } else {
        end_of_pass(timing, start, last_update, clock)
    }
}

/// The phase and action that follow `phase` once its action completed with
/// observation `obs`.
pub open spec fn dispense_next(timing: DispenseTiming, phase: DispensePhase, obs: Observation) -> (
    DispensePhase,
    DispenseAction,
) {
    match phase {
        DispensePhase::Idle => (
            DispensePhase::SettingInitialVelocity,
            DispenseAction::SetVelocity(Velocity::Max),
        ),
        DispensePhase::SettingInitialVelocity => (
            DispensePhase::Settling,
            DispenseAction::Sleep(SETTLE_NS),
        ),
        DispensePhase::Settling => (DispensePhase::Taring, DispenseAction::MeasureStartingWeight),
        DispensePhase::Taring => (DispensePhase::Priming, DispenseAction::Advance),
        DispensePhase::Priming => (
            DispensePhase::Sampling { start: obs.clock_ns, last_update: obs.clock_ns, checks: 0 },
            DispenseAction::TakeSample,
        ),
        DispensePhase::Sampling { start, last_update, checks } => {
            if elapsed(obs.clock_ns, last_update) > SPEED_UPDATE_NS && elapsed(obs.clock_ns, start)
                > timing.start_buffer_ns {
                (
                    DispensePhase::SpeedSetting {
                        start,
                        now: obs.clock_ns,
                        checks,
                        below_check: obs.below_check,
                    },
                    DispenseAction::SetVelocity(chosen_velocity(obs.above_max, obs.above_min)),
                )
            } else {
                after_velocity(
                    timing,
                    start,
                    last_update,
                    obs.clock_ns,
                    checks,
                    obs.below_check,
                    obs.clock_ns,
                )
            }
        },
        DispensePhase::SpeedSetting { start, now, checks, below_check } => (
            DispensePhase::SpeedAdvancing {
                start,
                last_update: obs.clock_ns,
                now,
                checks,
                below_check,
            },
            DispenseAction::Advance,
        ),
        DispensePhase::SpeedAdvancing { start, last_update, now, checks, below_check } => {
            after_velocity(timing, start, last_update, now, checks, below_check, obs.clock_ns)
        },
        DispensePhase::CheckStopping { start, last_update, checks } => (
            DispensePhase::CheckSettling { start, last_update, checks },
            DispenseAction::Sleep(CHECK_SETTLE_NS),
        ),
        DispensePhase::CheckSettling { start, last_update, checks } => (
            DispensePhase::CheckWeighing { start, last_update, checks },
            DispenseAction::MeasureMedian,
        ),
        DispensePhase::CheckWeighing { start, last_update, checks } => {
            if obs.reached_target || checks >= 3 {
                (
                    DispensePhase::Retracting(DispenseVerdict::Success),
                    DispenseAction::Retract,
                )
            } else {
                (DispensePhase::Resuming { start, last_update, checks }, DispenseAction::Resume)
            }
        },
        DispensePhase::Resuming { start, last_update, checks } => {
            end_of_pass(timing, start, last_update, obs.clock_ns)
        },
        DispensePhase::TimeoutStopping => (
            DispensePhase::Retracting(DispenseVerdict::Timeout),
            DispenseAction::Retract,
        ),
        DispensePhase::Retracting(v) => (
            DispensePhase::RetractSettling(v),
            DispenseAction::Sleep(RETRACT_SETTLE_NS),
        ),
        DispensePhase::RetractSettling(v) => (
            DispensePhase::AwaitingMove(v),
            DispenseAction::WaitForMove(MOVE_POLL_NS),
        ),
        DispensePhase::AwaitingMove(v) => (DispensePhase::Finished(v), DispenseAction::Finish(v)),
        DispensePhase::Finished(v) => (DispensePhase::Finished(v), DispenseAction::Finish(v)),
    }
}

/// The check counter of a phase can still be counted up without overflow.
pub open spec fn counter_in_range(phase: DispensePhase) -> bool {
    match phase {
        DispensePhase::Sampling { checks, .. } => checks < u32::MAX,
        DispensePhase::SpeedSetting { checks, .. } => checks < u32::MAX,
        DispensePhase::SpeedAdvancing { checks, .. } => checks < u32::MAX,
        _ => true,
    }
}

/// The check counter a pass is in: zero while the pass samples and sets the
/// velocity, one from its check until the pass ends.
pub open spec fn counter_per_pass(phase: DispensePhase) -> bool {
    match phase {
        DispensePhase::Sampling { checks, .. } => checks == 0,
        DispensePhase::SpeedSetting { checks, .. } => checks == 0,
        DispensePhase::SpeedAdvancing { checks, .. } => checks == 0,
        DispensePhase::CheckStopping { checks, .. } => checks == 1,
        DispensePhase::CheckSettling { checks, .. } => checks == 1,
        DispensePhase::CheckWeighing { checks, .. } => checks == 1,
        DispensePhase::Resuming { checks, .. } => checks == 1,
        _ => true,
    }
}

/// The clock reading at which the dispense started, once it has started and
/// until it stops sampling.
pub open spec fn start_of(phase: DispensePhase) -> Option<u64> {
    match phase {
        DispensePhase::Sampling { start, .. } => Some(start),
        DispensePhase::SpeedSetting { start, .. } => Some(start),
        DispensePhase::SpeedAdvancing { start, .. } => Some(start),
        DispensePhase::CheckStopping { start, .. } => Some(start),
        DispensePhase::CheckSettling { start, .. } => Some(start),
        DispensePhase::CheckWeighing { start, .. } => Some(start),
        DispensePhase::Resuming { start, .. } => Some(start),
        _ => None,
    }
}

/// The check counter is reset at the end of every pass: a dispense starts
/// with the counter in its per-pass shape, and every step keeps it so (in
/// particular the counter never overflows).
pub proof fn lemma_counter_reset_every_pass(
    timing: DispenseTiming,
    phase: DispensePhase,
    obs: Observation,
)
    requires
        counter_per_pass(phase),
    ensures
        counter_per_pass(DispensePhase::Idle),
        counter_per_pass(dispense_next(timing, phase, obs).0),
        counter_in_range(dispense_next(timing, phase, obs).0),
{
}

/// A check ends the dispense with success exactly when its median weight
/// reached the target: since the counter is reset every pass, a missed check
/// never ends the dispense. Success is entered from a check and nowhere else.
pub proof fn lemma_success_iff_target_reached(
    timing: DispenseTiming,
    phase: DispensePhase,
    obs: Observation,
)
    requires
        counter_per_pass(phase),
    ensures
        dispense_next(timing, phase, obs).0 == DispensePhase::Retracting(DispenseVerdict::Success)
            ==> (phase is CheckWeighing && obs.reached_target),
        phase is CheckWeighing ==> (dispense_next(timing, phase, obs).0
            == DispensePhase::Retracting(DispenseVerdict::Success) <==> obs.reached_target),
{
}

/// A dispense times out only when more than the timeout has passed since it
/// started, by the latest clock reading; and at the end of every pass it
/// does time out once that much time has passed.
pub proof fn lemma_timeout_only_after_deadline(
    timing: DispenseTiming,
    phase: DispensePhase,
    obs: Observation,
)
    ensures
        dispense_next(timing, phase, obs).0 == DispensePhase::TimeoutStopping ==> (start_of(
            phase,
        ) matches Some(start) && elapsed(obs.clock_ns, start) > timing.timeout_ns),
        (phase matches DispensePhase::Resuming { start, .. } && elapsed(obs.clock_ns, start)
            > timing.timeout_ns) ==> dispense_next(timing, phase, obs).0
            == DispensePhase::TimeoutStopping,
{
}

/// The velocity is updated, after the initial setting, only after a sample
/// taken more than the start buffer after the start and more than the update
/// interval after the previous update; the velocity is the maximum when the
/// proportional one exceeds it, the minimum when the proportional one does
/// not exceed the minimum, the proportional one otherwise.
pub proof fn lemma_velocity_updates_gated(
    timing: DispenseTiming,
    phase: DispensePhase,
    obs: Observation,
)
    ensures
        dispense_next(timing, phase, obs).1 is SetVelocity && !(phase is Idle) ==> (
        phase matches DispensePhase::Sampling { start, last_update, .. } && elapsed(
            obs.clock_ns,
            last_update,
        ) > SPEED_UPDATE_NS && elapsed(obs.clock_ns, start) > timing.start_buffer_ns
            && dispense_next(timing, phase, obs).1 == DispenseAction::SetVelocity(
            chosen_velocity(obs.above_max, obs.above_min),
        )),
{
}

/// A check (stopping the motor to weigh) starts only after a sample that was
/// at or below the check weight and taken more than the start buffer after
/// the start.
pub proof fn lemma_checks_gated(timing: DispenseTiming, phase: DispensePhase, obs: Observation)
    ensures
        dispense_next(timing, phase, obs).0 is CheckStopping ==> ({
            ||| (phase matches DispensePhase::Sampling { start, .. } && obs.below_check
                && elapsed(obs.clock_ns, start) > timing.start_buffer_ns)
            ||| (phase matches DispensePhase::SpeedAdvancing { start, now, below_check, .. }
                && below_check && elapsed(now, start) > timing.start_buffer_ns)
        }),
{
}

/// Every dispense ends with a retract: the retract is issued only after a
/// successful check or after the timeout stop, and the dispense is reported
/// finished only after waiting for the retract move; once finished it stays
/// finished with the same verdict.
pub proof fn lemma_finish_follows_retract(
    timing: DispenseTiming,
    phase: DispensePhase,
    obs: Observation,
)
    ensures
        dispense_next(timing, phase, obs).1 == DispenseAction::Retract ==> ((phase is CheckWeighing
            && dispense_next(timing, phase, obs).0 == DispensePhase::Retracting(
            DispenseVerdict::Success,
        )) || (phase is TimeoutStopping && dispense_next(timing, phase, obs).0
            == DispensePhase::Retracting(DispenseVerdict::Timeout))),
        forall|v: DispenseVerdict|
            dispense_next(timing, phase, obs).1 == DispenseAction::Finish(v) ==> (phase
                == DispensePhase::AwaitingMove(v) || phase == DispensePhase::Finished(v)),
        forall|v: DispenseVerdict|
            phase == DispensePhase::Finished(v) ==> dispense_next(timing, phase, obs) == (
                DispensePhase::Finished(v),
                DispenseAction::Finish(v),
            ),
{
}

/// The start of a dispense is the clock reading after the first forward
/// move, and it does not change while the dispense samples and checks.
pub proof fn lemma_start_is_fixed(timing: DispenseTiming, phase: DispensePhase, obs: Observation)
    ensures
        phase is Priming ==> start_of(dispense_next(timing, phase, obs).0) == Some(obs.clock_ns),
        (start_of(phase) is Some && start_of(dispense_next(timing, phase, obs).0) is Some)
            ==> start_of(dispense_next(timing, phase, obs).0) == start_of(phase),
{
}

/// Every pass that does not start a check ends with the timeout decision,
/// taken on the latest clock reading: a plain sample (no velocity update due,
/// no check), the forward move after a velocity update (no check), and the
/// resumption after a missed check. More than `timeout_ns` since the start
/// stops the motor and times out; otherwise the counter is reset and the
/// next sample is taken, with start and last update unchanged.
pub proof fn lemma_every_pass_ends_with_timeout_decision(
    timing: DispenseTiming,
    phase: DispensePhase,
    obs: Observation,
)
    ensures
        ({
            let c = obs.clock_ns;
            let r = dispense_next(timing, phase, obs);
            &&& (phase matches DispensePhase::Sampling { start, last_update, .. } && !(elapsed(
                c,
                last_update,
            ) > 25_000_000 && elapsed(c, start) > timing.start_buffer_ns) && !(obs.below_check
                && elapsed(c, start) > timing.start_buffer_ns)) ==> pass_end_is(
                timing,
                phase,
                c,
                r,
            )
            &&& (phase matches DispensePhase::SpeedAdvancing { start, now, below_check, .. }
                && !(below_check && elapsed(now, start) > timing.start_buffer_ns)) ==> pass_end_is(
                timing,
                phase,
                c,
                r,
            )
            &&& phase is Resuming ==> pass_end_is(timing, phase, c, r)
        }),
{
}

/// The outcome of a pass end at clock `c`, for a phase with a start and a
/// last update: timed out past the deadline, the next sample otherwise.
pub open spec fn pass_end_is(
    timing: DispenseTiming,
    phase: DispensePhase,
    c: u64,
    r: (DispensePhase, DispenseAction),
) -> bool {
    match phase {
        DispensePhase::Sampling { start, last_update, .. }
        | DispensePhase::SpeedAdvancing { start, last_update, .. }
        | DispensePhase::Resuming { start, last_update, .. } => if c >= start && c - start
            > timing.timeout_ns {
            r == (DispensePhase::TimeoutStopping, DispenseAction::AbruptStop)
        } else {
            r == (DispensePhase::Sampling { start, last_update, checks: 0 }, DispenseAction::TakeSample)
        },
        _ => false,
    }
}

/// Once more than 25 ms have passed since the last update and more than the
/// start buffer since the start, a sample always updates the velocity: to
/// the maximum when the proportional velocity exceeds it, to the
/// proportional velocity when it only exceeds the minimum, to the minimum
/// otherwise; the sample's time and check comparison are carried along, and
/// the forward move that follows records the clock as the last update.
pub proof fn lemma_velocity_updated_when_due(
    timing: DispenseTiming,
    start: u64,
    last_update: u64,
    checks: u32,
    obs: Observation,
    obs2: Observation,
    below_check: bool,
)
    requires
        obs.clock_ns >= last_update && obs.clock_ns - last_update > 25_000_000,
        obs.clock_ns >= start && obs.clock_ns - start > timing.start_buffer_ns,
    ensures
        dispense_next(timing, DispensePhase::Sampling { start, last_update, checks }, obs) == (
            DispensePhase::SpeedSetting {
                start,
                now: obs.clock_ns,
                checks,
                below_check: obs.below_check,
            },
            DispenseAction::SetVelocity(
                if obs.above_max {
                    Velocity::Max
                } else if obs.above_min {
                    Velocity::Proportional
                } else {
                    Velocity::Min
                },
            ),
        ),
        dispense_next(
            timing,
            DispensePhase::SpeedSetting { start, now: obs.clock_ns, checks, below_check },
            obs2,
        ) == (
            DispensePhase::SpeedAdvancing {
                start,
                last_update: obs2.clock_ns,
                now: obs.clock_ns,
                checks,
                below_check,
            },
            DispenseAction::Advance,
        ),
{
}

/// A sample at or below the check weight, taken more than the start buffer
/// after the start, always starts a check, whatever the velocity
/// comparisons: at once when no velocity update is due, right after the
/// velocity update's forward move otherwise. The check stops the motor and
/// counts one more check.
pub proof fn lemma_check_when_below_check_weight(
    timing: DispenseTiming,
    start: u64,
    last_update: u64,
    now: u64,
    checks: u32,
    obs: Observation,
)
    requires
        checks < u32::MAX,
        now >= start && now - start > timing.start_buffer_ns,
    ensures
        (obs.clock_ns == now && obs.below_check && !(obs.clock_ns >= last_update && obs.clock_ns
            - last_update > 25_000_000)) ==> dispense_next(
            timing,
            DispensePhase::Sampling { start, last_update, checks },
            obs,
        ) == (
            DispensePhase::CheckStopping { start, last_update, checks: (checks + 1) as u32 },
            DispenseAction::AbruptStop,
        ),
        (obs.clock_ns == now && obs.below_check) ==> (dispense_next(
            timing,
            DispensePhase::Sampling { start, last_update, checks },
            obs,
        ).0 matches DispensePhase::SpeedSetting { below_check, .. } ==> below_check),
        dispense_next(
            timing,
            DispensePhase::SpeedAdvancing { start, last_update, now, checks, below_check: true },
            obs,
        ) == (
            DispensePhase::CheckStopping { start, last_update, checks: (checks + 1) as u32 },
            DispenseAction::AbruptStop,
        ),
{
}

/// The steps of a dispense that always follow one another, whatever the
/// verdict. Starting: maximum velocity, a two second pause, the starting
/// weight, a forward move. Checking: a stop, a 50 ms pause, the median
/// weight; success once the median reached the target, resumption while
/// fewer than three checks were counted. Retracting: the move back, a 25 ms
/// pause, waiting for the move with 10 ms polls, then the finish.
pub proof fn lemma_step_sequences(
    timing: DispenseTiming,
    v: DispenseVerdict,
    start: u64,
    last_update: u64,
    checks: u32,
    obs: Observation,
)
    ensures
        dispense_next(timing, DispensePhase::Idle, obs) == (
            DispensePhase::SettingInitialVelocity,
            DispenseAction::SetVelocity(Velocity::Max),
        ),
        dispense_next(timing, DispensePhase::SettingInitialVelocity, obs) == (
            DispensePhase::Settling,
            DispenseAction::Sleep(2_000_000_000),
        ),
        dispense_next(timing, DispensePhase::Settling, obs) == (
            DispensePhase::Taring,
            DispenseAction::MeasureStartingWeight,
        ),
        dispense_next(timing, DispensePhase::Taring, obs) == (
            DispensePhase::Priming,
            DispenseAction::Advance,
        ),
        obs.reached_target ==> dispense_next(
            timing,
            DispensePhase::CheckWeighing { start, last_update, checks },
            obs,
        ) == (DispensePhase::Retracting(DispenseVerdict::Success), DispenseAction::Retract),
        (!obs.reached_target && checks < 3) ==> dispense_next(
            timing,
            DispensePhase::CheckWeighing { start, last_update, checks },
            obs,
        ) == (DispensePhase::Resuming { start, last_update, checks }, DispenseAction::Resume),
        dispense_next(timing, DispensePhase::Priming, obs) == (
            DispensePhase::Sampling { start: obs.clock_ns, last_update: obs.clock_ns, checks: 0 },
            DispenseAction::TakeSample,
        ),
        dispense_next(timing, DispensePhase::CheckStopping { start, last_update, checks }, obs) == (
            DispensePhase::CheckSettling { start, last_update, checks },
            DispenseAction::Sleep(50_000_000),
        ),
        dispense_next(timing, DispensePhase::CheckSettling { start, last_update, checks }, obs) == (
            DispensePhase::CheckWeighing { start, last_update, checks },
            DispenseAction::MeasureMedian,
        ),
        dispense_next(timing, DispensePhase::TimeoutStopping, obs) == (
            DispensePhase::Retracting(DispenseVerdict::Timeout),
            DispenseAction::Retract,
        ),
        dispense_next(timing, DispensePhase::Retracting(v), obs) == (
            DispensePhase::RetractSettling(v),
            DispenseAction::Sleep(25_000_000),
        ),
        dispense_next(timing, DispensePhase::RetractSettling(v), obs) == (
            DispensePhase::AwaitingMove(v),
            DispenseAction::WaitForMove(10_000_000),
        ),
        dispense_next(timing, DispensePhase::AwaitingMove(v), obs) == (
            DispensePhase::Finished(v),
            DispenseAction::Finish(v),
        ),
{
}

/// A started dispense keeps reporting its start in every phase that samples
/// or checks: the start is lost only when the dispense stops (times out or
/// retracts), and the phases of a check report the same start as the
/// sample that led to them.
pub proof fn lemma_start_kept_until_stop(
    timing: DispenseTiming,
    phase: DispensePhase,
    obs: Observation,
    start: u64,
    last_update: u64,
    now: u64,
    checks: u32,
    below_check: bool,
)
    ensures
        start_of(DispensePhase::Sampling { start, last_update, checks }) == Some(start),
        start_of(DispensePhase::SpeedSetting { start, now, checks, below_check }) == Some(start),
        start_of(DispensePhase::SpeedAdvancing { start, last_update, now, checks, below_check })
            == Some(start),
        start_of(DispensePhase::CheckStopping { start, last_update, checks }) == Some(start),
        start_of(DispensePhase::CheckSettling { start, last_update, checks }) == Some(start),
        start_of(DispensePhase::CheckWeighing { start, last_update, checks }) == Some(start),
        start_of(DispensePhase::Resuming { start, last_update, checks }) == Some(start),
        start_of(phase) is Some && !(dispense_next(timing, phase, obs).0 is TimeoutStopping)
            && !(dispense_next(timing, phase, obs).0 is Retracting) ==> start_of(
            dispense_next(timing, phase, obs).0,
        ) == start_of(phase),
        !(phase is Sampling || phase is SpeedSetting || phase is SpeedAdvancing
            || phase is CheckStopping || phase is CheckSettling || phase is CheckWeighing
            || phase is Resuming) ==> start_of(phase) is None,
{
}

fn elapsed_ns(later: u64, earlier: u64) -> (d: u64)
    ensures
        d == elapsed(later, earlier),
{
    later.saturating_sub(earlier)
}

/// The velocity for a velocity update.
pub fn choose_velocity(above_max: bool, above_min: bool) -> (v: Velocity)
    ensures
        v == chosen_velocity(above_max, above_min),
{
    if above_max {
        Velocity::Max
    } else if above_min {
        Velocity::Proportional
    } else {
        Velocity::Min
    }
}

fn finish_pass(timing: &DispenseTiming, start: u64, last_update: u64, clock: u64) -> (res: (
    DispensePhase,
    DispenseAction,
))
    ensures
        res == end_of_pass(*timing, start, last_update, clock),
{
    if elapsed_ns(clock, start) > timing.timeout_ns {
        (DispensePhase::TimeoutStopping, DispenseAction::AbruptStop)
    } else {
        (DispensePhase::Sampling { start, last_update, checks: 0 }, DispenseAction::TakeSample)
    }
}

fn check_or_finish_pass(
    timing: &DispenseTiming,
    start: u64,
    last_update: u64,
    now: u64,
    checks: u32,
    below_check: bool,
    clock: u64,
) -> (res: (DispensePhase, DispenseAction))
    requires
        checks < u32::MAX,
    ensures
        res == after_velocity(*timing, start, last_update, now, checks, below_check, clock),
{
    if below_check && elapsed_ns(now, start) > timing.start_buffer_ns {
        (
            DispensePhase::CheckStopping { start, last_update, checks: checks + 1 },
            DispenseAction::AbruptStop,
        )
    } else {
        finish_pass(timing, start, last_update, clock)
    }
}

/// Decides the next phase and action of a dispense, once the action of
/// `phase` completed with observation `obs`.
pub fn next_step(timing: &DispenseTiming, phase: DispensePhase, obs: &Observation) -> (res: (
    DispensePhase,
    DispenseAction,
))
    requires
        counter_in_range(phase),
    ensures
        res == dispense_next(*timing, phase, *obs),
{
    match phase {
        DispensePhase::Idle => (
            DispensePhase::SettingInitialVelocity,
            DispenseAction::SetVelocity(Velocity::Max),
        ),
        DispensePhase::SettingInitialVelocity => (
            DispensePhase::Settling,
            DispenseAction::Sleep(SETTLE_NS),
        ),
        DispensePhase::Settling => (DispensePhase::Taring, DispenseAction::MeasureStartingWeight),
        DispensePhase::Taring => (DispensePhase::Priming, DispenseAction::Advance),
        DispensePhase::Priming => (
            DispensePhase::Sampling { start: obs.clock_ns, last_update: obs.clock_ns, checks: 0 },
            DispenseAction::TakeSample,
        ),
        DispensePhase::Sampling { start, last_update, checks } => {
            if elapsed_ns(obs.clock_ns, last_update) > SPEED_UPDATE_NS && elapsed_ns(
                obs.clock_ns,
                start,
            ) > timing.start_buffer_ns {
                (
                    DispensePhase::SpeedSetting {
                        start,
                        now: obs.clock_ns,
                        checks,
                        below_check: obs.below_check,
                    },
                    DispenseAction::SetVelocity(choose_velocity(obs.above_max, obs.above_min)),
                )
            } else {
                check_or_finish_pass(
                    timing,
                    start,
                    last_update,
                    obs.clock_ns,
                    checks,
                    obs.below_check,
                    obs.clock_ns,
                )
            }
        },
        DispensePhase::SpeedSetting { start, now, checks, below_check } => (
            DispensePhase::SpeedAdvancing {
                start,
                last_update: obs.clock_ns,
                now,
                checks,
                below_check,
            },
            DispenseAction::Advance,
        ),
        DispensePhase::SpeedAdvancing { start, last_update, now, checks, below_check } => {
            check_or_finish_pass(timing, start, last_update, now, checks, below_check, obs.clock_ns)
        },
        DispensePhase::CheckStopping { start, last_update, checks } => (
            DispensePhase::CheckSettling { start, last_update, checks },
            DispenseAction::Sleep(CHECK_SETTLE_NS),
        ),
        DispensePhase::CheckSettling { start, last_update, checks } => (
            DispensePhase::CheckWeighing { start, last_update, checks },
            DispenseAction::MeasureMedian,
        ),
        DispensePhase::CheckWeighing { start, last_update, checks } => {
            if obs.reached_target || checks >= 3 {
                (
                    DispensePhase::Retracting(DispenseVerdict::Success),
                    DispenseAction::Retract,
                )
            } else {
                (DispensePhase::Resuming { start, last_update, checks }, DispenseAction::Resume)
            }
        },
        DispensePhase::Resuming { start, last_update, checks } => {
            finish_pass(timing, start, last_update, obs.clock_ns)
        },
        DispensePhase::TimeoutStopping => (
            DispensePhase::Retracting(DispenseVerdict::Timeout),
            DispenseAction::Retract,
        ),
        DispensePhase::Retracting(v) => (
            DispensePhase::RetractSettling(v),
            DispenseAction::Sleep(RETRACT_SETTLE_NS),
        ),
        DispensePhase::RetractSettling(v) => (
            DispensePhase::AwaitingMove(v),
            DispenseAction::WaitForMove(MOVE_POLL_NS),
        ),
        DispensePhase::AwaitingMove(v) => (DispensePhase::Finished(v), DispenseAction::Finish(v)),
        DispensePhase::Finished(v) => (DispensePhase::Finished(v), DispenseAction::Finish(v)),
    }
}

impl DispensePhase {
    /// The clock reading at which the dispense started, if it has started
    /// and is still sampling or checking.
    pub fn start(&self) -> (res: Option<u64>)
        ensures
            res == start_of(*self),
    {
        match *self {
            DispensePhase::Sampling { start, .. } => Some(start),
            DispensePhase::SpeedSetting { start, .. } => Some(start),
            DispensePhase::SpeedAdvancing { start, .. } => Some(start),
            DispensePhase::CheckStopping { start, .. } => Some(start),
            DispensePhase::CheckSettling { start, .. } => Some(start),
            DispensePhase::CheckWeighing { start, .. } => Some(start),
            DispensePhase::Resuming { start, .. } => Some(start),
            _ => None,
        }
    }
}

/// A running dispense: its timing and its phase. Its phase is always one a
/// dispense can reach from `Idle`, so its check counter is in its per-pass
/// shape.
pub struct DispenseController {
    timing: DispenseTiming,
    phase: DispensePhase,
}

impl DispenseController {
    #[verifier::type_invariant]
    spec fn counter_shape(self) -> bool {
        counter_per_pass(self.phase)
    }

    /// The timing the dispense runs with.
    pub closed spec fn timing_of(self) -> DispenseTiming {
        self.timing
    }

    /// Where the dispense stands.
    pub closed spec fn phase_of(self) -> DispensePhase {
        self.phase
    }

    /// A dispense that has not begun.
    pub fn new(timing: DispenseTiming) -> (c: Self)
        ensures
            c.timing_of() == timing,
            c.phase_of() == DispensePhase::Idle,
    {
        DispenseController { timing, phase: DispensePhase::Idle }
    }

    /// Where the dispense stands.
    pub fn phase(&self) -> (p: DispensePhase)
        ensures
            p == self.phase_of(),
    {
        self.phase
    }

    /// Moves the dispense on, once the last action completed with
    /// observation `obs`, and returns the next action.
    pub fn step(&mut self, obs: &Observation) -> (action: DispenseAction)
        ensures
            final(self).timing_of() == old(self).timing_of(),
            (final(self).phase_of(), action) == dispense_next(
                old(self).timing_of(),
                old(self).phase_of(),
                *obs,
            ),
    {
        proof {
            use_type_invariant(&*self);
            lemma_counter_reset_every_pass(self.timing, self.phase, *obs);
        }
        let (phase, action) = next_step(&self.timing, self.phase, obs);
        self.phase = phase;
        action
    }
}

} // verus!
