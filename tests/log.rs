use amptop::errors::DaemonError;
use amptop::log::{insert_row, row_bound, snapshots_from_rows, SnapshotLog};
use amptop::snapshot::{BatterySnapshot, SnapshotStatus};

const T: i64 = 1_700_000_000;

fn snap(percent_hundredths: u32, timestamp: i64, status: SnapshotStatus) -> BatterySnapshot {
    BatterySnapshot { percent_hundredths, timestamp, status }
}

#[test]
fn appended_snapshot_reads_back() {
    let log = SnapshotLog::open_in_memory().unwrap();
    let s = snap(4250, T, SnapshotStatus::Discharging);
    log.append(&s).unwrap();
    assert_eq!(log.query(Some(1)).unwrap(), vec![s]);
}

#[test]
fn query_returns_newest_first() {
    let log = SnapshotLog::open_in_memory().unwrap();
    for (i, t) in [T, T + 10, T + 20].iter().enumerate() {
        log.append(&snap(1000 * i as u32, *t, SnapshotStatus::Charging)).unwrap();
    }
    let all = log.query(None).unwrap();
    let times: Vec<i64> = all.iter().map(|s| s.timestamp).collect();
    assert_eq!(times, vec![T + 20, T + 10, T]);
    let two = log.query(Some(2)).unwrap();
    assert_eq!(two.len(), 2);
    assert_eq!(two[0].timestamp, T + 20);
    assert_eq!(two[1].percent_hundredths, 1000);
}

#[test]
fn empty_log_and_zero_limit() {
    let log = SnapshotLog::open_in_memory().unwrap();
    assert!(log.query(None).unwrap().is_empty());
    log.append(&snap(10000, T, SnapshotStatus::Full)).unwrap();
    assert!(log.query(Some(0)).unwrap().is_empty());
}

#[test]
fn every_status_and_bound_round_trips() {
    let log = SnapshotLog::open_in_memory().unwrap();
    let all = [
        snap(0, T + 4, SnapshotStatus::Empty),
        snap(10000, T + 3, SnapshotStatus::Full),
        snap(1, T + 2, SnapshotStatus::Unknown),
        snap(9999, T + 1, SnapshotStatus::Charging),
        snap(5000, T, SnapshotStatus::Discharging),
    ];
    for s in all.iter().rev() {
        log.append(s).unwrap();
    }
    assert_eq!(log.query(None).unwrap(), all.to_vec());
}

#[test]
fn rows_decode_in_order() {
    let rows = vec![(4250, T + 10, "full".to_string()), (0, T, "charging".to_string())];
    let v = snapshots_from_rows(&rows, Some(5)).unwrap();
    assert_eq!(v, vec![snap(4250, T + 10, SnapshotStatus::Full), snap(0, T, SnapshotStatus::Charging)]);
}

#[test]
fn unknown_status_text_is_corrupt() {
    let rows = vec![(4250, T, "melting".to_string())];
    assert!(matches!(snapshots_from_rows(&rows, None), Err(DaemonError::CorruptLog)));
}

#[test]
fn out_of_range_charge_is_corrupt() {
    let rows = vec![(10001, T, "full".to_string())];
    assert!(matches!(snapshots_from_rows(&rows, None), Err(DaemonError::CorruptLog)));
    let rows = vec![(-1, T, "full".to_string())];
    assert!(matches!(snapshots_from_rows(&rows, None), Err(DaemonError::CorruptLog)));
}

#[test]
fn rows_out_of_order_or_over_limit_are_corrupt() {
    let rows = vec![(1, T, "full".to_string()), (1, T + 1, "full".to_string())];
    assert!(matches!(snapshots_from_rows(&rows, None), Err(DaemonError::CorruptLog)));
    let rows = vec![(1, T, "full".to_string()), (1, T, "full".to_string())];
    assert!(matches!(snapshots_from_rows(&rows, Some(1)), Err(DaemonError::CorruptLog)));
    assert_eq!(snapshots_from_rows(&rows, Some(2)).unwrap().len(), 2);
}

#[test]
fn status_labels() {
    assert_eq!(SnapshotStatus::Discharging.label(), "discharging");
    assert_eq!(SnapshotStatus::from_label("charging"), Some(SnapshotStatus::Charging));
    assert_eq!(SnapshotStatus::from_label("Charging"), None);
    assert_eq!(SnapshotStatus::from_label(""), None);
}

#[test]
fn insert_row_binds_snapshot_fields() {
    assert_eq!(insert_row(&snap(4250, T, SnapshotStatus::Discharging)), (4250, T, "discharging"));
    assert_eq!(insert_row(&snap(0, -5, SnapshotStatus::Empty)), (0, -5, "empty"));
}

#[test]
fn row_bound_passes_limit_or_none() {
    assert_eq!(row_bound(None), -1);
    assert_eq!(row_bound(Some(0)), 0);
    assert_eq!(row_bound(Some(500)), 500);
    assert_eq!(row_bound(Some(usize::MAX)), -1);
}

#[test]
fn limit_takes_the_newest_rows() {
    let log = SnapshotLog::open_in_memory().unwrap();
    for t in [T + 5, T, T + 20, T + 10] {
        log.append(&snap(100, t, SnapshotStatus::Full)).unwrap();
    }
    let times: Vec<i64> = log.query(Some(3)).unwrap().iter().map(|s| s.timestamp).collect();
    assert_eq!(times, vec![T + 20, T + 10, T + 5]);
    assert_eq!(log.query(Some(10)).unwrap().len(), 4);
}
