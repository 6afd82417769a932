use vstd::prelude::*;
use rusqlite::Connection;
use crate::errors::DaemonError;
use crate::snapshot::{BatterySnapshot, SnapshotStatus, status_of_text, status_text, FULL_CHARGE};

verus! {

/// Creates the append-only table and its timestamp index when they are missing.
pub const SCHEMA_SQL: &'static str = "CREATE TABLE IF NOT EXISTS battery_logs (
    id INTEGER PRIMARY KEY AUTOINCREMENT,
    percent REAL NOT NULL,
    timestamp INTEGER NOT NULL,
    status TEXT NOT NULL
);
CREATE INDEX IF NOT EXISTS idx_timestamp ON battery_logs(timestamp);";

/// Appends one row; the charge is bound in hundredths and stored as a percentage.
pub const INSERT_SQL: &'static str =
    "INSERT INTO battery_logs (percent, timestamp, status) VALUES (?1 / 100.0, ?2, ?3)";

/// Reads rows newest first, at most `?1` of them (a negative bound means all of them).
pub const SELECT_SQL: &'static str = "SELECT CAST(ROUND(percent * 100) AS INTEGER), timestamp, status
    FROM battery_logs ORDER BY timestamp DESC LIMIT ?1";

/// Relies on rusqlite::Connection::open: opens, or creates, the database file at `path`.
#[verifier::external_body]
fn open_connection(path: &str) -> (r: Result<Connection, rusqlite::Error>) {
    Connection::open(path)
}

/// Relies on rusqlite::Connection::open_in_memory: a fresh, empty database held in memory.
#[verifier::external_body]
fn open_memory_connection() -> (r: Result<Connection, rusqlite::Error>) {
    Connection::open_in_memory()
}

/// Relies on rusqlite::Connection::execute_batch: runs the statements of `sql` in turn.
#[verifier::external_body]
fn execute_batch(conn: &Connection, sql: &str) -> (r: Result<(), rusqlite::Error>) {
    conn.execute_batch(sql)
}

/// Relies on rusqlite::Connection::execute: runs `sql` once with three bound parameters.
#[verifier::external_body]
fn execute_with(conn: &Connection, sql: &str, a: i64, b: i64, c: &str) -> (r: Result<
    usize,
    rusqlite::Error,
>) {
    conn.execute(sql, (a, b, c))
}

/// Relies on rusqlite's Connection::prepare, Statement::query_map and Row::get: the rows
/// that `sql`, with `bound` as its one parameter, yields, as three columns each.
#[verifier::external_body]
fn select_with(conn: &Connection, sql: &str, bound: i64) -> (r: Result<
    Vec<(i64, i64, String)>,
    rusqlite::Error,
>) {
    let mut stmt = conn.prepare(sql)?;
    let rows = stmt.query_map([bound], |row| Ok((row.get(0)?, row.get(1)?, row.get(2)?)))?;
    rows.collect()
}

/// The values bound to `INSERT_SQL` for a snapshot: charge in hundredths (the statement
/// divides it by 100 to store a percentage), timestamp, and the status's stored text.
pub fn insert_row(s: &BatterySnapshot) -> (r: (i64, i64, &'static str))
    ensures
        r.0 == s.percent_hundredths as i64,
        r.1 == s.timestamp,
        r.2@ == status_text(s.status),
{
    (s.percent_hundredths as i64, s.timestamp, s.status.label())
}

/// The bound handed to `SELECT_SQL`'s `LIMIT`: the limit itself, or -1 (no bound) when
/// there is none or it exceeds what SQLite can take.
pub open spec fn row_bound_of(limit: Option<usize>) -> int {
    match limit {
        Some(k) => if k <= i64::MAX {
            k as int
        } else {
            -1
        },
        None => -1,
    }
}

pub fn row_bound(limit: Option<usize>) -> (r: i64)
    ensures
        r == row_bound_of(limit),
{
    match limit {
        Some(k) => if k as u64 <= i64::MAX as u64 {
            k as i64
        } else {
            -1
        },
        None => -1,
    }
}

/// The snapshot that a stored row stands for: charge in hundredths, timestamp, status text.
pub open spec fn row_snapshot(row: (i64, i64, String)) -> Option<BatterySnapshot> {
    if 0 <= row.0 <= FULL_CHARGE {
        match status_of_text(row.2@) {
            Some(st) => Some(
                BatterySnapshot { percent_hundredths: row.0 as u32, timestamp: row.1, status: st },
            ),
            None => None,
        }
    } else {
        None
    }
}

/// Timestamps never increase along `s`.
pub open spec fn newest_first(s: Seq<BatterySnapshot>) -> bool {
    forall|i: int, j: int| 0 <= i < j < s.len() ==> s[i].timestamp >= s[j].timestamp
}

pub open spec fn within_limit(n: int, limit: Option<usize>) -> bool {
    match limit {
        Some(k) => n <= k,
        None => true,
    }
}

/// Rows that a query may hand back: each a snapshot, newest first, no more than asked.
pub open spec fn rows_acceptable(rows: Seq<(i64, i64, String)>, limit: Option<usize>) -> bool {
    &&& forall|i: int| 0 <= i < rows.len() ==> (#[trigger] row_snapshot(rows[i])) is Some
    &&& forall|i: int, j: int| 0 <= i < j < rows.len() ==> rows[i].1 >= rows[j].1
    &&& within_limit(rows.len() as int, limit)
}

/// Turns the rows of a query into snapshots, refusing rows that are no snapshot or that
/// break the order or the bound that the query asked for.
pub fn snapshots_from_rows(rows: &Vec<(i64, i64, String)>, limit: Option<usize>) -> (r: Result<
    Vec<BatterySnapshot>,
    DaemonError,
>)
    ensures
        r is Ok <==> rows_acceptable(rows@, limit),
        r is Err ==> r matches Err(DaemonError::CorruptLog),
        r matches Ok(v) ==> {
            &&& v@.len() == rows@.len()
            &&& forall|i: int| 0 <= i < v@.len() ==> Some(#[trigger] v@[i]) == row_snapshot(rows@[i])
        },
{
    if let Some(k) = limit {
        if rows.len() > k {
            return Err(DaemonError::CorruptLog);
        }
    }
    let mut out: Vec<BatterySnapshot> = Vec::new();
    let mut i: usize = 0;
    while i < rows.len()
        invariant
            0 <= i <= rows@.len(),
            within_limit(rows@.len() as int, limit),
            out@.len() == i,
            forall|k: int| 0 <= k < i ==> Some(#[trigger] out@[k]) == row_snapshot(rows@[k]),
            forall|k: int| 0 <= k < i ==> (#[trigger] row_snapshot(rows@[k])) is Some,
            forall|a: int, b: int| 0 <= a < b < i ==> rows@[a].1 >= rows@[b].1,
        decreases rows@.len() - i,
    {
        let row = &rows[i];
        if i > 0 && rows[i - 1].1 < row.1 {
            return Err(DaemonError::CorruptLog);
        }
        if row.0 < 0 || row.0 > FULL_CHARGE as i64 {
            proof {
                assert(row_snapshot(rows@[i as int]) is None);
            }
            return Err(DaemonError::CorruptLog);
        }
        match SnapshotStatus::from_label(row.2.as_str()) {
            Some(st) => {
                out.push(BatterySnapshot { percent_hundredths: row.0 as u32, timestamp: row.1, status: st });
            },
            None => {
                proof {
                    assert(row_snapshot(rows@[i as int]) is None);
                }
                return Err(DaemonError::CorruptLog);
            },
        }
        i = i + 1;
    }
    Ok(out)
}

/// The append-only log of snapshots, kept by the storage engine.
pub struct SnapshotLog {
    conn: Connection,
}

impl SnapshotLog {
    fn prepared(conn: Connection) -> (r: Result<SnapshotLog, DaemonError>)
        ensures
            r is Err ==> r matches Err(DaemonError::Database(_)),
    {
        match execute_batch(&conn, SCHEMA_SQL) {
            Ok(()) => Ok(SnapshotLog { conn }),
            Err(e) => Err(DaemonError::Database(e)),
        }
    }

    /// Opens the log stored at `path`, creating its table and index when missing.
    pub fn open(path: &str) -> (r: Result<SnapshotLog, DaemonError>)
        ensures
            r is Err ==> r matches Err(DaemonError::Database(_)),
    {
        match open_connection(path) {
            Ok(conn) => SnapshotLog::prepared(conn),
            Err(e) => Err(DaemonError::Database(e)),
        }
    }

    /// Opens an empty log held in memory.
    pub fn open_in_memory() -> (r: Result<SnapshotLog, DaemonError>)
        ensures
            r is Err ==> r matches Err(DaemonError::Database(_)),
    {
        match open_memory_connection() {
            Ok(conn) => SnapshotLog::prepared(conn),
            Err(e) => Err(DaemonError::Database(e)),
        }
    }

    /// Appends one snapshot as one row: the values bound to `INSERT_SQL` are exactly
    /// `insert_row(snapshot)`.
    pub fn append(&self, snapshot: &BatterySnapshot) -> (r: Result<(), DaemonError>)
        requires
            snapshot.wf(),
        ensures
            r is Err ==> r matches Err(DaemonError::Database(_)),
    {
        let (percent_hundredths, timestamp, status) = insert_row(snapshot);
        match execute_with(&self.conn, INSERT_SQL, percent_hundredths, timestamp, status) {
            Ok(_) => Ok(()),
            Err(e) => Err(DaemonError::Database(e)),
        }
    }

    /// The stored snapshots, newest first: all of them, or the `limit` newest. The bound
    /// handed to `SELECT_SQL` is exactly `row_bound(limit)`.
    pub fn query(&self, limit: Option<usize>) -> (r: Result<Vec<BatterySnapshot>, DaemonError>)
        ensures
            r matches Ok(v) ==> {
                &&& newest_first(v@)
                &&& within_limit(v@.len() as int, limit)
                &&& forall|i: int| 0 <= i < v@.len() ==> (#[trigger] v@[i]).wf()
            },
            r is Err ==> r matches Err(DaemonError::Database(_)) || r matches Err(
                DaemonError::CorruptLog,
            ),
    {
        let bound = row_bound(limit);
        match select_with(&self.conn, SELECT_SQL, bound) {
            Ok(rows) => {
                let r = snapshots_from_rows(&rows, limit);
                proof {
                    if let Ok(v) = &r {
                        assert forall|i: int, j: int| 0 <= i < j < v@.len() implies v@[i].timestamp
                            >= v@[j].timestamp by {
                            assert(Some(v@[i]) == row_snapshot(rows@[i]));
                            assert(Some(v@[j]) == row_snapshot(rows@[j]));
                        }
                        assert forall|i: int| 0 <= i < v@.len() implies (#[trigger] v@[i]).wf() by {
                            assert(Some(v@[i]) == row_snapshot(rows@[i]));
                        }
                    }
                }
                r
            },
            Err(e) => Err(DaemonError::Database(e)),
        }
    }
}

/// A stored snapshot reads back as itself: a row holding the values of `insert_row(s)`
/// decodes to `s`.
pub proof fn lemma_row_round_trip(s: BatterySnapshot, row: (i64, i64, String))
    requires
        s.wf(),
        row.0 == s.percent_hundredths as i64,
        row.1 == s.timestamp,
        row.2@ == status_text(s.status),
    ensures
        row_snapshot(row) == Some(s),
{
    crate::snapshot::lemma_status_text_round_trip(s.status);
}

} // verus!
