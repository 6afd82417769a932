//! Battery telemetry: the snapshot log, the collector's decisions, the daemon's
//! start/stop/status rules and the projection of a logged series onto a plot.
pub mod config;
pub mod daemon;
pub mod errors;
pub mod log;
pub mod pid;
pub mod projector;
pub mod snapshot;
pub mod sql;
pub mod timing;
