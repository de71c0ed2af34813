//! The errors that the telemetry library reports, and the collectors that a
//! send failure is attributed to.

use vstd::prelude::*;
use vstd::string::StringExecFns;

verus! {

/// An upstream telemetry sink.
#[derive(Debug, Clone, Copy, PartialEq, Eq, Structural)]
pub enum Collector {
    /// The analytics-oriented collector, which receives events.
    Analytics,
    /// The crash-reporting collector, which receives events and error reports.
    CrashReporting,
}

impl Collector {
    /// The collector's name as it appears in messages.
    pub open spec fn label(self) -> Seq<char> {
        match self {
            Collector::Analytics => "analytics"@,
            Collector::CrashReporting => "crash reporting"@,
        }
    }

    /// The collector's name as it appears in messages.
    pub fn name(self) -> (name: &'static str)
        ensures
            name@ == self.label(),
    {
        match self {
            Collector::Analytics => "analytics",
            Collector::CrashReporting => "crash reporting",
        }
    }
}

/// What can go wrong in the telemetry library.
///
/// None of these stops the host application: a configuration problem leaves
/// telemetry with safe defaults, and a send failure is handed to the caller,
/// who is free to drop it.
#[derive(Debug, Clone, PartialEq, Eq)]
pub enum TelemetryError {
    /// The stored configuration could not be used; the text says why.
    ConfigError(String),
    /// A property tree was asked for as an object, and its root is none.
    BuildError,
    /// A collector rejected a payload or failed to transmit it.
    SendError(Collector, String),
    /// The process registry already holds a facade.
    AlreadyInitialized,
}

/// The result of an operation that can fail with a [`TelemetryError`].
pub type TelemetryResult<T> = Result<T, TelemetryError>;

impl TelemetryError {
    /// The text of the error, for people.
    pub open spec fn text(self) -> Seq<char> {
        match self {
            TelemetryError::ConfigError(reason) => "Configuration error: "@ + reason@,
            TelemetryError::BuildError => "Telemetry properties are not an object"@,
            TelemetryError::SendError(collector, reason) => "Failed to send telemetry to the "@
                + collector.label() + " collector: "@ + reason@,
            TelemetryError::AlreadyInitialized => "Telemetry is already set"@,
        }
    }

    /// The text of the error, for people.
    pub fn message(&self) -> (text: String)
        ensures
            text@ == self.text(),
    {
        match self {
            TelemetryError::ConfigError(reason) => {
                String::from_str("Configuration error: ").concat(reason.as_str())
            },
            TelemetryError::BuildError => String::from_str(
                "Telemetry properties are not an object",
            ),
            TelemetryError::SendError(collector, reason) => {
                String::from_str("Failed to send telemetry to the ").concat(
                    collector.name(),
                ).concat(" collector: ").concat(reason.as_str())
            },
            TelemetryError::AlreadyInitialized => String::from_str("Telemetry is already set"),
        }
    }
}

} // verus!
