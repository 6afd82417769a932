use amptop::daemon::BatteryDaemon;
use amptop::errors::DaemonError;
use amptop::pid::parse_pid;
use amptop::snapshot::SnapshotStatus;

#[test]
fn start_refused_while_record_exists() {
    assert!(matches!(BatteryDaemon::check_start(true), Err(DaemonError::DaemonAlreadyRunning)));
    assert!(BatteryDaemon::check_start(false).is_ok());
}

#[test]
fn stop_without_record_is_not_running() {
    assert!(matches!(BatteryDaemon::stop_target(None), Err(DaemonError::DaemonNotRunning)));
}

#[test]
fn stop_reads_recorded_pid() {
    assert_eq!(BatteryDaemon::stop_target(Some(b"4242\n")).unwrap(), 4242);
    assert!(matches!(BatteryDaemon::stop_target(Some(b"abc")), Err(DaemonError::InvalidPid)));
    assert!(matches!(BatteryDaemon::stop_target(Some(b"")), Err(DaemonError::InvalidPid)));
}

#[test]
fn dead_process_is_not_running() {
    assert_eq!(BatteryDaemon::probe_target(Some(b"999999")), Some(999999));
    assert!(!BatteryDaemon::is_running(Some(b"999999"), false));
    assert!(BatteryDaemon::is_running(Some(b"999999"), true));
    assert!(!BatteryDaemon::is_running(None, true));
    assert!(!BatteryDaemon::is_running(Some(b"12x"), true));
}

#[test]
fn pid_text_forms() {
    assert_eq!(parse_pid(b"  17 \t\r\n"), Some(17));
    assert_eq!(parse_pid(b"+17"), Some(17));
    assert_eq!(parse_pid(b"-17"), Some(-17));
    assert_eq!(parse_pid(b"2147483647"), Some(i32::MAX));
    assert_eq!(parse_pid(b"-2147483648"), Some(i32::MIN));
    assert_eq!(parse_pid(b"2147483648"), None);
    assert_eq!(parse_pid(b"99999999999999999999"), None);
    assert_eq!(parse_pid(b"1 2"), None);
    assert_eq!(parse_pid(b"-"), None);
    assert_eq!(parse_pid(b"   "), None);
}

#[test]
fn collector_skips_missing_battery() {
    let daemon = BatteryDaemon::new(60, ":memory:".to_string());
    assert_eq!(daemon.interval_secs(), 60);
    assert_eq!(daemon.db_path(), ":memory:");
    let log = daemon.init_database().unwrap();
    assert_eq!(daemon.collect_step(&log, None).unwrap(), None);
    assert!(log.query(None).unwrap().is_empty());
    let appended = daemon.collect_step(&log, Some((4250, SnapshotStatus::Charging))).unwrap().unwrap();
    assert_eq!(appended.percent_hundredths, 4250);
    assert_eq!(appended.status, SnapshotStatus::Charging);
    let logs = log.query(None).unwrap();
    assert_eq!(logs, vec![appended]);
    assert_eq!(logs[0].percent_hundredths, 4250);
    assert_eq!(logs[0].status, SnapshotStatus::Charging);
    assert!(logs[0].timestamp > 1_600_000_000);
}

#[test]
fn snapshot_keeps_reading_and_time() {
    let s = BatteryDaemon::snapshot_at(Some((10000, SnapshotStatus::Full)), 123).unwrap();
    assert_eq!((s.percent_hundredths, s.timestamp, s.status), (10000, 123, SnapshotStatus::Full));
    assert!(BatteryDaemon::snapshot_at(None, 123).is_none());
    assert!(BatteryDaemon::collect_snapshot(None).is_none());
}

#[test]
fn get_logs_reads_the_daemons_log() {
    let daemon = BatteryDaemon::new(60, ":memory:".to_string());
    assert!(daemon.get_logs(Some(10)).unwrap().is_empty());
}
