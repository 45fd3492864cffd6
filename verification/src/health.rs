//! Health reports on kernel services.

use vstd::prelude::*;
use crate::ids::{now_rfc3339, is_rfc3339_utc};

verus! {

#[derive(Debug, Clone)]
pub struct HealthStatus {
    pub name: String,
    pub version: String,
    pub status: String,
    /// RFC 3339 time of the last heartbeat.
    pub last_heartbeat: String,
    /// RFC 3339 time the service started.
    pub startup_time: String,
    pub error_count: u32,
    pub latency_ms: u64,
}

pub struct HealthMonitor;

impl HealthMonitor {
    pub fn new() -> (res: Self) {
        HealthMonitor
    }

    /// A health report for a service, stamped with two readings of the
    /// current time in RFC 3339 form (the heartbeat's, then the start's),
    /// with no errors and a latency of one millisecond.
    pub fn check_service(&self, name: &str, version: &str, status: &str) -> (res: HealthStatus)
        ensures
            is_rfc3339_utc(res.last_heartbeat@),
            is_rfc3339_utc(res.startup_time@),
            res.name@ == name@,
            res.version@ == version@,
            res.status@ == status@,
            res.error_count == 0,
            res.latency_ms == 1,
    {
        let last_heartbeat = now_rfc3339();
        let startup_time = now_rfc3339();
        self.report_at(name, version, status, last_heartbeat, startup_time)
    }

    /// The health report for a service whose last heartbeat and start are
    /// given, with no errors and a latency of one millisecond.
    pub fn report_at(
        &self,
        name: &str,
        version: &str,
        status: &str,
        last_heartbeat: String,
        startup_time: String,
    ) -> (res: HealthStatus)
        ensures
            res.name@ == name@,
            res.version@ == version@,
            res.status@ == status@,
            res.last_heartbeat == last_heartbeat,
            res.startup_time == startup_time,
            res.error_count == 0,
            res.latency_ms == 1,
    {
        HealthStatus {
            name: name.to_owned(),
            version: version.to_owned(),
            status: status.to_owned(),
            last_heartbeat,
            startup_time,
            error_count: 0,
            latency_ms: 1,
        }
    }
}

} // verus!
