//! The telemetry loop: whether it runs, and how often it ticks.

use vstd::prelude::*;
use crate::config::Config;
use crate::error::AgentError;

verus! {

/// The telemetry collector.
#[derive(Debug, Clone, Copy, PartialEq, Eq, Structural)]
pub struct TelemetryCollector {
    enabled: bool,
    interval_seconds: u64,
}

impl TelemetryCollector {
    pub closed spec fn enabled(&self) -> bool {
        self.enabled
    }

    pub closed spec fn interval_seconds(&self) -> u64 {
        self.interval_seconds
    }

    /// The collector as the telemetry configuration sets it up.
    pub fn new(config: &Config) -> (collector: TelemetryCollector)
        ensures
            collector.enabled() == config.telemetry.enabled,
            collector.interval_seconds() == config.telemetry.interval_seconds,
    {
        TelemetryCollector {
            enabled: config.telemetry.enabled,
            interval_seconds: config.telemetry.interval_seconds,
        }
    }

    /// Seconds between two collections, or `None` where telemetry is
    /// disabled and the loop does not run.
    pub fn start(&self) -> (interval: Option<u64>)
        ensures
            interval == if self.enabled() {
                Some(self.interval_seconds())
            } else {
                None
            },
    {
        if self.enabled {
            Some(self.interval_seconds)
        } else {
            None
        }
    }

    /// One collection. Nothing is collected yet, so it always succeeds.
    pub fn collect_and_send(&self) -> (res: Result<(), AgentError>)
        ensures
            res is Ok,
    {
        Ok(())
    }
}

} // verus!
