use vstd::prelude::*;
use crate::errors::DaemonError;
use crate::log::{newest_first, within_limit, SnapshotLog};
use crate::pid::{parse_pid, record_pid};
use crate::snapshot::{BatterySnapshot, SnapshotStatus, FULL_CHARGE};

verus! {

/// Relies on chrono's Utc::now and DateTime::timestamp: the current time, in whole seconds
/// since the Unix epoch. It differs from call to call, so nothing is stated of it.
#[verifier::external_body]
fn now_timestamp() -> (r: i64) {
    chrono::Utc::now().timestamp()
}

/// Whether a daemon counts as running: a PID record exists. No liveness is checked here.
pub open spec fn counts_as_running(pid_record_exists: bool) -> bool {
    pid_record_exists
}

/// The background collector: where its log is kept and how often it samples.
pub struct BatteryDaemon {
    db_path: String,
    interval_secs: u64,
}

impl BatteryDaemon {
    pub closed spec fn db_path_spec(&self) -> Seq<char> {
        self.db_path@
    }

    pub closed spec fn interval_spec(&self) -> u64 {
        self.interval_secs
    }

    /// A collector that samples every `interval_secs` seconds into the log at `db_path`.
    pub fn new(interval_secs: u64, db_path: String) -> (r: BatteryDaemon)
        ensures
            r.interval_spec() == interval_secs,
            r.db_path_spec() == db_path@,
    {
        BatteryDaemon { db_path, interval_secs }
    }

    pub fn interval_secs(&self) -> (r: u64)
        ensures
            r == self.interval_spec(),
    {
        self.interval_secs
    }

    pub fn db_path(&self) -> (r: &str)
        ensures
            r@ == self.db_path_spec(),
    {
        self.db_path.as_str()
    }

    /// Opens the collector's log, creating its table and index when missing.
    pub fn init_database(&self) -> (r: Result<SnapshotLog, DaemonError>)
        ensures
            r is Err ==> r matches Err(DaemonError::Database(_)),
    {
        SnapshotLog::open(self.db_path.as_str())
    }

    /// The snapshot that a reading taken at `timestamp` becomes; a missing power source
    /// gives none.
    pub fn snapshot_at(reading: Option<(u32, SnapshotStatus)>, timestamp: i64) -> (r: Option<
        BatterySnapshot,
    >)
        requires
            reading matches Some(p) ==> p.0 <= FULL_CHARGE,
        ensures
            reading is None <==> r is None,
            r matches Some(s) ==> {
                &&& s.wf()
                &&& reading matches Some(p) && s.percent_hundredths == p.0 && s.status == p.1
                &&& s.timestamp == timestamp
            },
    {
        match reading {
            Some((percent_hundredths, status)) => Some(
                BatterySnapshot { percent_hundredths, timestamp, status },
            ),
            None => None,
        }
    }

    /// The snapshot that a reading taken now becomes; a missing power source gives none.
    pub fn collect_snapshot(reading: Option<(u32, SnapshotStatus)>) -> (r: Option<BatterySnapshot>)
        requires
            reading matches Some(p) ==> p.0 <= FULL_CHARGE,
        ensures
            reading is None <==> r is None,
            r matches Some(s) ==> {
                &&& s.wf()
                &&& reading matches Some(p) && s.percent_hundredths == p.0 && s.status == p.1
            },
    {
        if reading.is_none() {
            return None;
        }
        BatteryDaemon::snapshot_at(reading, now_timestamp())
    }

    /// One round of the collector: a reading, when there is one, becomes a snapshot taken
    /// now, which `SnapshotLog::append` adds to the log. `Ok(Some(s))` gives the snapshot
    /// appended, `Ok(None)` a round skipped for want of a power source; an error ends the
    /// collector.
    pub fn collect_step(&self, log: &SnapshotLog, reading: Option<(u32, SnapshotStatus)>) -> (r:
        Result<Option<BatterySnapshot>, DaemonError>)
        requires
            reading matches Some(p) ==> p.0 <= FULL_CHARGE,
        ensures
            reading is None ==> r == Ok::<Option<BatterySnapshot>, DaemonError>(None),
            reading matches Some(p) ==> (r is Ok ==> (r matches Ok(Some(s)) && s.wf()
                && s.percent_hundredths == p.0 && s.status == p.1)),
            r is Err ==> r matches Err(DaemonError::Database(_)),
    {
        match BatteryDaemon::collect_snapshot(reading) {
            Some(snapshot) => match log.append(&snapshot) {
                Ok(()) => Ok(Some(snapshot)),
                Err(e) => Err(e),
            },
            None => Ok(None),
        }
    }

    /// The logged snapshots, newest first: all of them, or the `limit` newest.
    pub fn get_logs(&self, limit: Option<usize>) -> (r: Result<Vec<BatterySnapshot>, DaemonError>)
        ensures
            r matches Ok(v) ==> {
                &&& newest_first(v@)
                &&& within_limit(v@.len() as int, limit)
                &&& forall|i: int| 0 <= i < v@.len() ==> (#[trigger] v@[i]).wf()
            },
            r is Err ==> r matches Err(DaemonError::Database(_)) || r matches Err(
                DaemonError::CorruptLog,
            ),
    {
        match self.init_database() {
            Ok(log) => log.query(limit),
            Err(e) => Err(e),
        }
    }

    /// Whether a start may go ahead: never while a PID record exists, whether or not
    /// the process it names is alive.
    pub fn check_start(pid_record_exists: bool) -> (r: Result<(), DaemonError>)
        ensures
            r is Ok <==> !counts_as_running(pid_record_exists),
            r is Err ==> r matches Err(DaemonError::DaemonAlreadyRunning),
    {
        if pid_record_exists {
            Err(DaemonError::DaemonAlreadyRunning)
        } else {
            Ok(())
        }
    }

    /// The process that a stop terminates, read from the PID record's contents (`None`
    /// when there is no record). Only on `Ok` is there anything to signal or delete.
    pub fn stop_target(pid_record: Option<&[u8]>) -> (r: Result<i32, DaemonError>)
        ensures
            pid_record is None ==> r matches Err(DaemonError::DaemonNotRunning),
            pid_record matches Some(t) ==> match record_pid(t@) {
                Some(p) => r == Ok::<i32, DaemonError>(p),
                None => r matches Err(DaemonError::InvalidPid),
            },
    {
        match pid_record {
            None => Err(DaemonError::DaemonNotRunning),
            Some(t) => match parse_pid(t) {
                Some(p) => Ok(p),
                None => Err(DaemonError::InvalidPid),
            },
        }
    }

    /// The process whose liveness tells whether the daemon runs: the one the PID record
    /// names. With no record, or one that holds no process id, there is none, and the
    /// daemon does not run.
    pub fn probe_target(pid_record: Option<&[u8]>) -> (r: Option<i32>)
        ensures
            pid_record is None ==> r is None,
            pid_record matches Some(t) ==> r == record_pid(t@),
    {
        match pid_record {
            None => None,
            Some(t) => parse_pid(t),
        }
    }

    /// Whether the daemon runs, given the record's contents and, for the process it names,
    /// whether a zero signal reached it.
    pub fn is_running(pid_record: Option<&[u8]>, probe_succeeded: bool) -> (r: bool)
        ensures
            r == (BatteryDaemon::probe_target_spec(pid_record) is Some && probe_succeeded),
    {
        BatteryDaemon::probe_target(pid_record).is_some() && probe_succeeded
    }

    pub open spec fn probe_target_spec(pid_record: Option<&[u8]>) -> Option<i32> {
        match pid_record {
            None => None,
            Some(t) => record_pid(t@),
        }
    }
}

} // verus!
