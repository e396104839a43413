use std::time::Duration;
use vstd::prelude::*;

verus! {

/// A time series: the time at which each reading was taken, and the reading.
/// The i-th time belongs to the i-th reading.
#[derive(Debug)]
pub struct Data<R> {
    pub times: Vec<Duration>,
    pub readings: Vec<R>,
}

impl<R> Data<R> {
    /// The two columns have one entry per sample.
    pub open spec fn aligned(&self) -> bool {
        self.times@.len() == self.readings@.len()
    }

    /// The number of samples recorded.
    pub open spec fn len(&self) -> nat {
        self.readings@.len()
    }

    /// An empty series, with room reserved for `samples` samples.
    pub fn new(samples: usize) -> (data: Self)
        ensures
            data.times@ == Seq::<Duration>::empty(),
            data.readings@ == Seq::<R>::empty(),
            data.aligned(),
    {
        Data { times: Vec::with_capacity(samples), readings: Vec::with_capacity(samples) }
    }

    /// Appends one sample: `time` to the times and `reading` to the readings.
    pub fn push(&mut self, time: Duration, reading: R)
        ensures
            final(self).times@ == old(self).times@.push(time),
            final(self).readings@ == old(self).readings@.push(reading),
            old(self).aligned() ==> final(self).aligned(),
    {
        self.times.push(time);
        self.readings.push(reading);
    }
}

} // verus!
