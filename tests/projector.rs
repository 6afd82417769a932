use amptop::projector::{decimate, dominant_state, project, sample_stride, status_counts, DominantState};
use amptop::snapshot::{BatterySnapshot, SnapshotStatus};

fn series(n: usize, status: SnapshotStatus) -> Vec<BatterySnapshot> {
    (0..n)
        .map(|i| BatterySnapshot {
            percent_hundredths: (i % 10001) as u32,
            timestamp: 1_700_000_000 + 60 * i as i64,
            status,
        })
        .collect()
}

#[test]
fn thousand_points_fit_hundred_columns() {
    let logs = series(1000, SnapshotStatus::Discharging);
    let p = project(&logs, 100).unwrap();
    let m = p.samples.len();
    assert!(m <= 100);
    assert_eq!(m, 100);
    assert_eq!(p.x_numerators.len(), m);
    assert_eq!(p.x_numerators[0], 0);
    for i in 1..m {
        assert!(p.x_numerators[i - 1] < p.x_numerators[i]);
    }
    assert_eq!(p.x_numerators[m - 1], 4 * p.x_denominator);
    let xs: Vec<f64> = p.x_numerators.iter().map(|n| *n as f64 / p.x_denominator as f64).collect();
    assert_eq!(xs[0], 0.0);
    assert_eq!(xs[m - 1], 4.0);
    assert_eq!(p.samples[1], logs[10]);
}

#[test]
fn fifty_points_are_not_decimated() {
    let logs = series(50, SnapshotStatus::Charging);
    assert_eq!(sample_stride(50, 100), 1);
    let p = project(&logs, 100).unwrap();
    assert_eq!(p.samples.len(), 50);
    assert_eq!(p.samples, logs);
    assert_eq!(p.x_denominator, 49);
    assert_eq!(p.x_numerators[49], 196);
}

#[test]
fn empty_input_has_no_data() {
    assert!(project(&Vec::new(), 100).is_none());
}

#[test]
fn single_point_sits_at_zero() {
    let p = project(&series(1, SnapshotStatus::Full), 100).unwrap();
    assert_eq!(p.x_numerators, vec![0]);
    assert_eq!(p.x_denominator, 1);
    assert_eq!(p.dominant, DominantState::Full);
}

#[test]
fn stride_rounds_down() {
    assert_eq!(sample_stride(1000, 100), 10);
    assert_eq!(sample_stride(199, 100), 1);
    assert_eq!(sample_stride(250, 100), 2);
    assert_eq!(sample_stride(10, 0), 1);
    let logs = series(7, SnapshotStatus::Unknown);
    let kept = decimate(&logs, 3);
    assert_eq!(kept, vec![logs[0], logs[3], logs[6]]);
}

#[test]
fn tie_between_discharging_and_charging_goes_to_discharging() {
    assert_eq!(dominant_state(5, 5, 0), DominantState::Discharging);
    let mut logs = series(5, SnapshotStatus::Discharging);
    logs.extend(series(5, SnapshotStatus::Charging));
    assert_eq!(status_counts(&logs), (5, 5, 0));
    assert_eq!(project(&logs, 100).unwrap().dominant, DominantState::Discharging);
}

#[test]
fn dominant_state_precedence() {
    assert_eq!(dominant_state(1, 3, 2), DominantState::Charging);
    assert_eq!(dominant_state(0, 2, 2), DominantState::Charging);
    assert_eq!(dominant_state(1, 1, 4), DominantState::Full);
    assert_eq!(dominant_state(2, 0, 2), DominantState::Discharging);
    assert_eq!(dominant_state(0, 0, 0), DominantState::Unclassified);
    let p = project(&series(4, SnapshotStatus::Empty), 100).unwrap();
    assert_eq!(p.dominant, DominantState::Unclassified);
}

#[test]
fn dominance_counts_only_kept_points() {
    let mut logs = Vec::new();
    for i in 0..200 {
        let status = if i % 2 == 0 { SnapshotStatus::Full } else { SnapshotStatus::Discharging };
        logs.push(BatterySnapshot { percent_hundredths: 10000, timestamp: i, status });
    }
    let p = project(&logs, 100).unwrap();
    assert_eq!(p.samples.len(), 100);
    assert_eq!(p.dominant, DominantState::Full);
}
