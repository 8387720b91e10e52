//! The failure taxonomy of the boundary.
//!
//! Every recoverable failure inside a boundary entry point is one of
//! these typed errors; the containment wrapper turns it into a single
//! host-visible exception carrying the rendered message.  Unexpected
//! native faults (panics) are not errors of this type: they are caught
//! separately by the containment wrapper.

use crate::text::{i64_to_decimal, spec_idecimal};
use vstd::prelude::*;
use vstd::string::StringExecFns;

verus! {

/// Why a telemetry configuration was rejected before reaching the
/// exporter.
#[derive(Clone, Copy, PartialEq, Eq, Structural, Debug)]
pub enum TelemetryFault {
    /// Neither a traces endpoint nor a metrics endpoint was given.
    NoEndpoints,
    /// The flush interval (milliseconds) was zero or negative.
    NonPositiveFlushInterval(i64),
    /// A traces endpoint was given with a negative sample percentage.
    NegativeSamplePercentage(i32),
}

/// A typed, recoverable failure of a boundary entry point.
#[derive(Clone, PartialEq, Eq, Debug)]
pub enum BridgeError {
    /// A byte buffer was not valid UTF-8 while text decoding was asked for.
    Decoding,
    /// A handle was redeemed that no leak produced, that was already
    /// reclaimed, or that is zero or negative.
    InvalidHandle(i64),
    /// The background listener reported a startup failure, or its signal
    /// channel closed without an answer; the payload is its message.
    TransportStartup(String),
    /// An integer arrived that codes no severity level.
    LoggerConfig(i32),
    /// A telemetry configuration failed validation.
    TelemetryConfig(TelemetryFault),
    /// A host-runtime call failed while constructing the result; the
    /// payload is the host runtime's message.
    BoundaryApi(String),
}

/// The rendered message of a telemetry fault.
pub open spec fn spec_telemetry_fault_message(fault: TelemetryFault) -> Seq<char> {
    match fault {
        TelemetryFault::NoEndpoints => "at least one of traces or metrics must be provided"@,
        TelemetryFault::NonPositiveFlushInterval(ms) => "flush interval must be a positive number of milliseconds, got "@
            + spec_idecimal(ms as int),
        TelemetryFault::NegativeSamplePercentage(pct) => "sample percentage must not be negative, got "@
            + spec_idecimal(pct as int),
    }
}

/// The rendered message of an error, as the host runtime sees it.
pub open spec fn spec_error_message(error: BridgeError) -> Seq<char> {
    match error {
        BridgeError::Decoding => "invalid UTF-8: cannot decode bytes as text"@,
        BridgeError::InvalidHandle(handle) => "invalid handle: "@ + spec_idecimal(handle as int),
        BridgeError::TransportStartup(message) => "failed to start the listener: "@ + message@,
        BridgeError::LoggerConfig(code) => "invalid log level: "@ + spec_idecimal(code as int),
        BridgeError::TelemetryConfig(fault) => "invalid telemetry configuration: "@
            + spec_telemetry_fault_message(fault),
        BridgeError::BoundaryApi(message) => "host runtime call failed: "@ + message@,
    }
}

impl TelemetryFault {
    /// Renders the fault as a human-readable message.
    pub fn message(&self) -> (message: String)
        ensures
            message@ == spec_telemetry_fault_message(*self),
    {
        match self {
            TelemetryFault::NoEndpoints => "at least one of traces or metrics must be provided".to_owned(),
            TelemetryFault::NonPositiveFlushInterval(ms) => {
                let mut message = "flush interval must be a positive number of milliseconds, got ".to_owned();
                message.append(i64_to_decimal(*ms).as_str());
                message
            },
            TelemetryFault::NegativeSamplePercentage(pct) => {
                let mut message = "sample percentage must not be negative, got ".to_owned();
                message.append(i64_to_decimal(*pct as i64).as_str());
                message
            },
        }
    }
}

impl BridgeError {
    /// Renders the error as a human-readable message.
    pub fn message(&self) -> (message: String)
        ensures
            message@ == spec_error_message(*self),
    {
        match self {
            BridgeError::Decoding => "invalid UTF-8: cannot decode bytes as text".to_owned(),
            BridgeError::InvalidHandle(handle) => {
                let mut message = "invalid handle: ".to_owned();
                message.append(i64_to_decimal(*handle).as_str());
                message
            },
            BridgeError::TransportStartup(detail) => {
                let mut message = "failed to start the listener: ".to_owned();
                message.append(detail.as_str());
                message
            },
            BridgeError::LoggerConfig(code) => {
                let mut message = "invalid log level: ".to_owned();
                message.append(i64_to_decimal(*code as i64).as_str());
                message
            },
            BridgeError::TelemetryConfig(fault) => {
                let mut message = "invalid telemetry configuration: ".to_owned();
                message.append(fault.message().as_str());
                message
            },
            BridgeError::BoundaryApi(detail) => {
                let mut message = "host runtime call failed: ".to_owned();
                message.append(detail.as_str());
                message
            },
        }
    }
}

} // verus!
