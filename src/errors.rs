use vstd::prelude::*;

verus! {

/// Failures of the library.
#[derive(Debug)]
pub enum DaemonError {
    /// The storage engine failed to open, create, insert or query.
    Database(rusqlite::Error),
    /// The log holds a row that is no snapshot (unknown status or charge out of range),
    /// or rows that came back out of the asked order.
    CorruptLog,
    /// A PID record exists, so a daemon counts as running.
    DaemonAlreadyRunning,
    /// No PID record exists.
    DaemonNotRunning,
    /// The PID record does not hold a process id.
    InvalidPid,
}

} // verus!
