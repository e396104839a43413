//! Weight and load-cell trials: a fixed number of samples, one sampling
//! period apart.
use std::time::Duration;
use vstd::prelude::*;
use crate::data::Data;
use crate::error::Error;

verus! {

/// The number of load cells of a scale.
pub const LOAD_CELLS: usize = 4;

/// How the samples of a weight trial are taken. `F` is the low-pass filter
/// type of a filtered trial.
#[derive(Debug)]
pub enum WeightTrialType<F> {
    /// The weight as the scale reports it.
    Raw,
    /// The median of several weights (not implemented).
    Median,
    /// The weight passed through the filter.
    Filtered(F),
}

/// What taking one sample of a weight trial amounts to.
#[derive(Clone, Copy, Debug, PartialEq, Eq, Structural)]
pub enum SampleMethod {
    /// Read the weight.
    Raw,
    /// Read the weight and pass it through the trial's filter.
    Filtered,
}

impl<F> WeightTrialType<F> {
    /// How a sample is taken for this trial type: a raw trial reads the
    /// weight, a filtered trial filters it, a median trial fails with
    /// `NotImplemented` before the scale is read.
    pub fn sample_method<E>(&self) -> (res: Result<SampleMethod, Error<E>>)
        ensures
            self is Raw ==> res == Ok::<SampleMethod, Error<E>>(SampleMethod::Raw),
            self is Filtered ==> res == Ok::<SampleMethod, Error<E>>(SampleMethod::Filtered),
            self is Median ==> res is Err && res->Err_0 is NotImplemented,
    {
        match self {
            WeightTrialType::Raw => Ok(SampleMethod::Raw),
            WeightTrialType::Filtered(_) => Ok(SampleMethod::Filtered),
            WeightTrialType::Median => Err(Error::NotImplemented),
        }
    }

    /// The filter of a filtered trial, to be applied to the next weight.
    pub fn filter_mut(&mut self) -> (res: Option<&mut F>)
        ensures
            *old(self) is Filtered <==> res is Some,
            *old(self) is Filtered ==> *res->Some_0 == old(self)->Filtered_0 && *final(self)
                == WeightTrialType::Filtered(*final(res->Some_0)),
            !(*old(self) is Filtered) ==> *final(self) == *old(self),
    {
        match self {
            WeightTrialType::Filtered(f) => Some(f),
            _ => None,
        }
    }
}

/// A weight trial: `samples` weights, one `sample_period` apart.
#[derive(Debug)]
pub struct WeightTrial<F> {
    pub trial_type: WeightTrialType<F>,
    pub samples: usize,
    pub sample_period: Duration,
}

impl<F> WeightTrial<F> {
    pub fn new(trial_type: WeightTrialType<F>, samples: usize, sample_period: Duration) -> (trial:
        Self)
        ensures
            trial.trial_type == trial_type,
            trial.samples == samples,
            trial.sample_period == sample_period,
    {
        WeightTrial { trial_type, samples, sample_period }
    }
}

/// A load-cell trial: `samples` readings of every load cell, one
/// `sample_period` apart.
#[derive(Debug)]
pub struct LoadCellTrial {
    pub samples: usize,
    pub sample_period: Duration,
}

impl LoadCellTrial {
    pub fn new(samples: usize, sample_period: Duration) -> (trial: Self)
        ensures
            trial.samples == samples,
            trial.sample_period == sample_period,
    {
        LoadCellTrial { samples, sample_period }
    }

    /// One empty series per load cell, with room for the trial's samples.
    pub fn empty_records<R>(&self) -> (records: [Data<R>; 4])
        ensures
            forall|i: int|
                0 <= i < 4 ==> (#[trigger] records@[i]).times@.len() == 0
                    && records@[i].readings@.len() == 0 && records@[i].aligned(),
    {
        [
            Data::new(self.samples),
            Data::new(self.samples),
            Data::new(self.samples),
            Data::new(self.samples),
        ]
    }
}

/// What a running trial does next.
#[derive(Clone, Copy, Debug, PartialEq, Eq, Structural)]
pub enum TrialAction {
    /// Take one sample (a reading and the time it was taken) and record it.
    Sample,
    /// Wait one sampling period.
    Rest,
    /// The trial is complete.
    Done,
}

/// How far a trial of `samples` samples has got: `taken` samples recorded,
/// `rested` sampling periods waited.
#[derive(Clone, Copy, Debug, PartialEq, Eq, Structural)]
pub struct TrialProgress {
    pub samples: usize,
    pub taken: usize,
    pub rested: usize,
}

/// A trial takes a sample, then waits a sampling period, until it has taken
/// all its samples and waited after the last one.
pub open spec fn trial_next(p: TrialProgress) -> (TrialProgress, TrialAction) {
    if p.rested < p.taken {
        (TrialProgress { rested: (p.rested + 1) as usize, ..p }, TrialAction::Rest)
    } else if p.taken < p.samples {
        (TrialProgress { taken: (p.taken + 1) as usize, ..p }, TrialAction::Sample)
    } else {
        (p, TrialAction::Done)
    }
}

/// The progress after `k` steps from `p`.
pub open spec fn progress_after(p: TrialProgress, k: nat) -> TrialProgress
    decreases k,
{
    if k == 0 {
        p
    } else {
        trial_next(progress_after(p, (k - 1) as nat)).0
    }
}

/// The action of step `k` (counted from zero) from `p`.
pub open spec fn action_at(p: TrialProgress, k: nat) -> TrialAction {
    trial_next(progress_after(p, k)).1
}

impl TrialProgress {
    /// A trial of `samples` samples that has not begun.
    pub fn start(samples: usize) -> (p: Self)
        ensures
            p == (TrialProgress { samples, taken: 0, rested: 0 }),
    {
        TrialProgress { samples, taken: 0, rested: 0 }
    }

    /// The progress and the action that follow `self`.
    pub fn step(self) -> (res: (Self, TrialAction))
        ensures
            res == trial_next(self),
    {
        if self.rested < self.taken {
            (TrialProgress { rested: self.rested + 1, ..self }, TrialAction::Rest)
        } else if self.taken < self.samples {
            (TrialProgress { taken: self.taken + 1, ..self }, TrialAction::Sample)
        } else {
            (self, TrialAction::Done)
        }
    }
}

/// A trial of `n` samples alternates `n` times between taking a sample and
/// waiting a sampling period, starting with a sample; then it is done, and
/// stays done. So it records exactly `n` samples and waits after each one.
pub proof fn lemma_trial_takes_every_sample(n: usize, j: nat)
    requires
        j <= n,
    ensures
        progress_after(TrialProgress { samples: n, taken: 0, rested: 0 }, 2 * j)
            == (TrialProgress { samples: n, taken: j as usize, rested: j as usize }),
        j < n ==> action_at(TrialProgress { samples: n, taken: 0, rested: 0 }, 2 * j)
            == TrialAction::Sample,
        j < n ==> action_at(TrialProgress { samples: n, taken: 0, rested: 0 }, 2 * j + 1)
            == TrialAction::Rest,
        j == n ==> action_at(TrialProgress { samples: n, taken: 0, rested: 0 }, 2 * j)
            == TrialAction::Done,
        j == n ==> progress_after(TrialProgress { samples: n, taken: 0, rested: 0 }, 2 * j + 1)
            == progress_after(TrialProgress { samples: n, taken: 0, rested: 0 }, 2 * j),
    decreases j,
{
    let p0 = TrialProgress { samples: n, taken: 0, rested: 0 };
    if j > 0 {
        lemma_trial_takes_every_sample(n, (j - 1) as nat);
        assert(progress_after(p0, (2 * (j - 1) + 1) as nat) == trial_next(
            progress_after(p0, (2 * (j - 1)) as nat),
        ).0);
        assert(progress_after(p0, 2 * j) == trial_next(
            progress_after(p0, (2 * (j - 1) + 1) as nat),
        ).0);
    }
    assert(progress_after(p0, 2 * j + 1) == trial_next(progress_after(p0, 2 * j)).0);
}

/// Records one reading of every load cell, all taken at `time`: the reading
/// of load cell `i` goes to series `i`.
pub fn record_load_cells<R: Copy>(records: &mut [Data<R>; 4], time: Duration, readings: &[R])
    requires
        readings@.len() >= LOAD_CELLS,
    ensures
        forall|i: int|
            0 <= i < 4 ==> (#[trigger] final(records)@[i]).times@ == old(records)@[i].times@.push(
                time,
            ) && final(records)@[i].readings@ == old(records)@[i].readings@.push(readings@[i]),
        forall|i: int|
            0 <= i < 4 && (#[trigger] old(records)@[i]).aligned() ==> final(records)@[i].aligned(),
{
    let mut lc: usize = 0;
    while lc < LOAD_CELLS
        invariant
            0 <= lc <= LOAD_CELLS,
            readings@.len() >= LOAD_CELLS,
            forall|i: int|
                0 <= i < lc ==> (#[trigger] records@[i]).times@ == old(records)@[i].times@.push(
                    time,
                ) && records@[i].readings@ == old(records)@[i].readings@.push(readings@[i]),
            forall|i: int| lc <= i < 4 ==> #[trigger] records@[i] == old(records)@[i],
        decreases LOAD_CELLS - lc,
    {
        records[lc].push(time, readings[lc]);
        lc = lc + 1;
    }
}

} // verus!
