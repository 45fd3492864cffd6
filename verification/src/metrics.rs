//! Kernel metrics. Recording is a no-op for now.

use vstd::prelude::*;

verus! {

pub struct MetricsCollector;

impl MetricsCollector {
    pub fn new() -> (res: Self) {
        MetricsCollector
    }

    /// Records how long boot took; nothing is kept yet.
    pub fn record_boot_time(&self, _ms: u64) {
    }
}

} // verus!
