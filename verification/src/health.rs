//! The local health endpoint: where it listens and what it answers.

use vstd::prelude::*;
use crate::config::{Config, AGENT_VERSION};

verus! {

/// The answer to a health request.
#[derive(Debug)]
pub struct HealthResponse {
    pub status: String,
    pub version: String,
    /// Seconds since the agent started.
    pub uptime: u64,
}

/// The answer to a metrics request.
#[derive(Debug, Clone, Copy, PartialEq, Eq, Structural)]
pub struct MetricsResponse {
    pub agent_uptime_seconds: u64,
}

/// Where the health endpoint listens: the four octets of an IPv4 address,
/// and a port.
#[derive(Debug, Clone, Copy, PartialEq, Eq, Structural)]
pub struct ListenAddress {
    pub a: u8,
    pub b: u8,
    pub c: u8,
    pub d: u8,
    pub port: u16,
}

/// The health endpoint.
#[derive(Debug, Clone, Copy, PartialEq, Eq, Structural)]
pub struct HealthServer {
    port: u16,
}

impl HealthServer {
    pub closed spec fn port(&self) -> u16 {
        self.port
    }

    /// The endpoint on the port of the health configuration.
    pub fn new(config: &Config) -> (server: HealthServer)
        ensures
            server.port() == config.health.port,
    {
        HealthServer { port: config.health.port }
    }

    /// The address to listen on: every interface, on the configured port.
    pub fn start(&self) -> (address: ListenAddress)
        ensures
            address == (ListenAddress { a: 0, b: 0, c: 0, d: 0, port: self.port() }),
    {
        ListenAddress { a: 0, b: 0, c: 0, d: 0, port: self.port }
    }

    /// Answers a health request: the agent is healthy, at its version;
    /// uptime is not measured and reported as zero.
    pub fn health_handler(&self) -> (response: HealthResponse)
        ensures
            response.status@ == "healthy"@,
            response.version@ == AGENT_VERSION@,
            response.uptime == 0,
    {
        HealthResponse {
            status: String::from_str("healthy"),
            version: String::from_str(AGENT_VERSION),
            uptime: 0,
        }
    }

    /// Answers a metrics request.
    pub fn metrics_handler(&self) -> (response: MetricsResponse)
        ensures
            response == (MetricsResponse { agent_uptime_seconds: 0 }),
    {
        MetricsResponse { agent_uptime_seconds: 0 }
    }
}

} // verus!
