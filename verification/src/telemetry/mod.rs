//! Telemetry: its configuration, the sinks that discard or report metrics,
//! and alerting.

pub mod alerts;
pub mod console;

use vstd::prelude::*;
use crate::text::owned;

verus! {

/// The configuration of telemetry.
#[derive(Debug)]
pub struct TelemetryConfig {
    /// The service name reported.
    pub service_name: String,
    /// Logs go to the console.
    pub enable_console: bool,
    /// The log level.
    pub log_level: String,
    /// OpenTelemetry export is on.
    pub enable_opentelemetry: bool,
    /// Where OpenTelemetry data goes.
    pub opentelemetry_endpoint: Option<String>,
}

impl Default for TelemetryConfig {
    /// Service `mcp-agent`, console logging at level `info`, no OpenTelemetry.
    fn default() -> (r: Self)
        ensures
            r.service_name@ == "mcp-agent"@,
            r.enable_console,
            r.log_level@ == "info"@,
            !r.enable_opentelemetry,
            r.opentelemetry_endpoint is None,
    {
        TelemetryConfig {
            service_name: owned("mcp-agent"),
            enable_console: true,
            log_level: owned("info"),
            enable_opentelemetry: false,
            opentelemetry_endpoint: None,
        }
    }
}

/// Telemetry that discards everything.
#[derive(Debug)]
pub struct NullTelemetry;

impl NullTelemetry {
    /// The sink.
    pub fn new() -> (r: NullTelemetry) {
        NullTelemetry
    }
}

/// Telemetry that reports through the log until an exporter is configured.
#[derive(Debug)]
pub struct DefaultTelemetry {}

impl DefaultTelemetry {
    /// The sink.
    pub fn new() -> (r: DefaultTelemetry) {
        DefaultTelemetry {}
    }
}

/// Shuts telemetry down; no exporter needs flushing.
pub fn shutdown_telemetry() {
}

} // verus!
