//! Anonymous, opt-in usage and error telemetry for an application.
//!
//! The library decides and builds; it sends nothing. It resolves whether
//! telemetry is enabled and under which instance identifier ([`config`]),
//! builds the properties of an event ([`properties`]), plans what goes to
//! which collector ([`telemetry`]), puts an event into the form of the
//! analytics collector ([`analytics`]), and keeps the facade of the process
//! ([`registry`]). Reading and writing the configuration file, and talking to
//! the collectors, is left to the embedding program.

pub mod analytics;
pub mod config;
pub mod error;
pub mod json;
pub mod properties;
pub mod registry;
pub mod telemetry;

pub use config::{Resolution, Signals, TelemetryConfig};
pub use error::{Collector, TelemetryError, TelemetryResult};
pub use properties::TelemetryProps;
pub use registry::Registry;
pub use telemetry::{
    AnalyticsSetup, CrashReportingSetup, Dispatch, ErrorDescription, EventMessage, Message,
    Outcome, Telemetry,
};
