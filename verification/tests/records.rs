use std::time::Duration;

use node_diagnostics::add;
use node_diagnostics::data::Data;
use node_diagnostics::error::Error;
use node_diagnostics::trial::{
    record_load_cells, LoadCellTrial, SampleMethod, TrialAction, TrialProgress, WeightTrial,
    WeightTrialType, LOAD_CELLS,
};

#[test]
fn add_sums() {
    assert_eq!(add(2, 2), 4);
    assert_eq!(add(0, u64::MAX), u64::MAX);
}

#[test]
fn data_starts_empty() {
    let data: Data<f64> = Data::new(10000);
    assert!(data.times.is_empty());
    assert!(data.readings.is_empty());
}

#[test]
fn data_push_keeps_columns_aligned() {
    let mut data: Data<f64> = Data::new(2);
    data.push(Duration::from_millis(40), 12.5);
    data.push(Duration::from_millis(80), -3.0);
    data.push(Duration::from_millis(120), 7.25);
    assert_eq!(data.times.len(), data.readings.len());
    assert_eq!(
        data.times,
        vec![Duration::from_millis(40), Duration::from_millis(80), Duration::from_millis(120)]
    );
    assert_eq!(data.readings, vec![12.5, -3.0, 7.25]);
}

#[test]
fn raw_trial_reads_the_weight() {
    let t: WeightTrialType<()> = WeightTrialType::Raw;
    assert!(matches!(t.sample_method::<()>(), Ok(SampleMethod::Raw)));
}

#[test]
fn filtered_trial_filters_the_weight() {
    let t: WeightTrialType<u8> = WeightTrialType::Filtered(3);
    assert!(matches!(t.sample_method::<()>(), Ok(SampleMethod::Filtered)));
}

#[test]
fn median_trial_is_not_implemented() {
    let t: WeightTrialType<u8> = WeightTrialType::Median;
    assert!(matches!(t.sample_method::<()>(), Err(Error::NotImplemented)));
}

#[test]
fn filter_mut_reaches_the_filter() {
    let mut t: WeightTrialType<u8> = WeightTrialType::Filtered(3);
    if let Some(f) = t.filter_mut() {
        *f = 9;
    }
    assert!(matches!(t, WeightTrialType::Filtered(9)));
    let mut raw: WeightTrialType<u8> = WeightTrialType::Raw;
    assert!(raw.filter_mut().is_none());
    let mut median: WeightTrialType<u8> = WeightTrialType::Median;
    assert!(median.filter_mut().is_none());
}

#[test]
fn weight_trial_new_keeps_its_settings() {
    let trial: WeightTrial<u8> =
        WeightTrial::new(WeightTrialType::Filtered(1), 100, Duration::from_millis(20));
    assert!(matches!(trial.trial_type, WeightTrialType::Filtered(1)));
    assert_eq!(trial.samples, 100);
    assert_eq!(trial.sample_period, Duration::from_millis(20));
}

#[test]
fn load_cell_trial_new_keeps_its_settings() {
    let trial = LoadCellTrial::new(20, Duration::from_millis(80));
    assert_eq!(trial.samples, 20);
    assert_eq!(trial.sample_period, Duration::from_millis(80));
}

#[test]
fn load_cell_readings_go_to_their_own_series() {
    let trial = LoadCellTrial::new(20, Duration::from_millis(80));
    let mut records: [Data<f64>; 4] = trial.empty_records();
    assert_eq!(LOAD_CELLS, 4);
    for r in records.iter() {
        assert!(r.times.is_empty() && r.readings.is_empty());
    }
    record_load_cells(&mut records, Duration::from_millis(5), &[1.0, 2.0, 3.0, 4.0]);
    record_load_cells(&mut records, Duration::from_millis(90), &[5.0, 6.0, 7.0, 8.0, 99.0]);
    for (i, r) in records.iter().enumerate() {
        assert_eq!(r.times, vec![Duration::from_millis(5), Duration::from_millis(90)]);
        assert_eq!(r.readings, vec![(i + 1) as f64, (i + 5) as f64]);
    }
}

fn run_trial(samples: usize) -> Vec<TrialAction> {
    let mut progress = TrialProgress::start(samples);
    let mut actions = Vec::new();
    loop {
        let (next, action) = progress.step();
        progress = next;
        actions.push(action);
        if action == TrialAction::Done {
            break;
        }
    }
    actions
}

#[test]
fn trial_alternates_sample_and_rest() {
    let (s, r, d) = (TrialAction::Sample, TrialAction::Rest, TrialAction::Done);
    assert_eq!(run_trial(3), vec![s, r, s, r, s, r, d]);
    assert_eq!(run_trial(0), vec![d]);
}

#[test]
fn trial_takes_exactly_its_samples_and_stays_done() {
    let actions = run_trial(100);
    assert_eq!(actions.iter().filter(|a| **a == TrialAction::Sample).count(), 100);
    assert_eq!(actions.iter().filter(|a| **a == TrialAction::Rest).count(), 100);
    let done = TrialProgress { samples: 2, taken: 2, rested: 2 };
    assert_eq!(done.step(), (done, TrialAction::Done));
    let mid = TrialProgress { samples: 2, taken: 1, rested: 0 };
    assert_eq!(mid.step(), (TrialProgress { samples: 2, taken: 1, rested: 1 }, TrialAction::Rest));
}
