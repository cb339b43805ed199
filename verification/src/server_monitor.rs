//! Per-server state of the richer four-state monitor (`Offline`,
//! `Starting`, `Online`, `Stopping`).  The wired-up liveness monitor is
//! the simpler two-state one in [`crate::monitor`]; these types remain
//! for callers that track start/stop transitions explicitly.

use vstd::prelude::*;

verus! {

/// The four-state liveness status.
#[derive(Debug, Clone, Copy, PartialEq, Eq, Structural)]
pub enum ServerMonitorStatus {
    Offline,
    Starting,
    Online,
    Stopping,
}

/// A status transition, ready to be published to the event sink.
#[derive(Debug, Clone)]
pub struct ServerStatusEvent {
    pub server_name: String,
    pub old_status: ServerMonitorStatus,
    pub new_status: ServerMonitorStatus,
    /// Milliseconds since the Unix epoch.
    pub timestamp: u64,
}

/// Monitoring state for one server.
#[derive(Debug, Clone, Copy)]
pub struct ServerMonitorState {
    pub status: ServerMonitorStatus,
    pub last_query_success: Option<u64>,
    pub last_rcon_success: Option<u64>,
    pub last_check: u64,
    pub last_status_change: u64,
    pub consecutive_failures: u32,
    pub consecutive_successes: u32,
    pub port: u16,
}

impl ServerMonitorState {
    /// A freshly monitored server: offline, no checks recorded, with
    /// `now_ms` as the time of the last (initial) check.
    pub fn new(port: u16, now_ms: u64) -> (s: Self)
        ensures
            s.status is Offline,
            s.last_query_success is None,
            s.last_rcon_success is None,
            s.last_check == now_ms,
            s.last_status_change == now_ms,
            s.consecutive_failures == 0,
            s.consecutive_successes == 0,
            s.port == port,
    {
        ServerMonitorState {
            status: ServerMonitorStatus::Offline,
            last_query_success: None,
            last_rcon_success: None,
            last_check: now_ms,
            last_status_change: now_ms,
            consecutive_failures: 0,
            consecutive_successes: 0,
            port,
        }
    }

    pub fn is_online(&self) -> (r: bool)
        ensures
            r == (self.status is Online),
    {
        self.status == ServerMonitorStatus::Online
    }

    pub fn is_transitioning(&self) -> (r: bool)
        ensures
            r == (self.status is Starting || self.status is Stopping),
    {
        self.status == ServerMonitorStatus::Starting || self.status == ServerMonitorStatus::Stopping
    }
}

} // verus!
