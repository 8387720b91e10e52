//! Severity levels shared across the boundary.
//!
//! Both sides of the boundary agree on severity by exchanging small
//! integer codes instead of sharing a type definition.  The mapping is a
//! fixed bijection between the six levels and the codes `0..=5`.

use crate::errors::BridgeError;
use vstd::prelude::*;

verus! {

/// A logging severity level, ordered from most to least severe, with
/// `Off` disabling logging entirely.
#[derive(Clone, Copy, PartialEq, Eq, Structural, Debug)]
pub enum Level {
    Error,
    Warn,
    Info,
    Debug,
    Trace,
    Off,
}

/// The integer code that stands for `level` on the other side of the
/// boundary.
pub open spec fn spec_level_code(level: Level) -> i32 {
    match level {
        Level::Error => 0,
        Level::Warn => 1,
        Level::Info => 2,
        Level::Debug => 3,
        Level::Trace => 4,
        Level::Off => 5,
    }
}

/// The level that an integer code stands for, if the code is one of the
/// six assigned codes.
pub open spec fn spec_level_of_code(code: i32) -> Option<Level> {
    if code == 0 {
        Some(Level::Error)
    } else if code == 1 {
        Some(Level::Warn)
    } else if code == 2 {
        Some(Level::Info)
    } else if code == 3 {
        Some(Level::Debug)
    } else if code == 4 {
        Some(Level::Trace)
    } else if code == 5 {
        Some(Level::Off)
    } else {
        None
    }
}

impl Level {
    /// The integer code sent across the boundary for this level.
    pub fn code(self) -> (code: i32)
        ensures
            code == spec_level_code(self),
    {
        match self {
            Level::Error => 0,
            Level::Warn => 1,
            Level::Info => 2,
            Level::Debug => 3,
            Level::Trace => 4,
            Level::Off => 5,
        }
    }

    /// The level a code received from the boundary stands for; `None`
    /// exactly when the code is not one of the six assigned codes.
    pub fn from_code(code: i32) -> (level: Option<Level>)
        ensures
            level == spec_level_of_code(code),
    {
        match code {
            0 => Some(Level::Error),
            1 => Some(Level::Warn),
            2 => Some(Level::Info),
            3 => Some(Level::Debug),
            4 => Some(Level::Trace),
            5 => Some(Level::Off),
            _ => None,
        }
    }
}

/// Resolves the level argument of the logger-initialisation entry
/// point: a negative code asks for the default level, an assigned code
/// selects its level, and any other code is a logger configuration
/// error.
pub fn init_level_argument(code: i32) -> (result: Result<Option<Level>, BridgeError>)
    ensures
        code < 0 ==> result == Ok::<Option<Level>, BridgeError>(None),
        code >= 0 ==> match spec_level_of_code(code) {
            Some(level) => result == Ok::<Option<Level>, BridgeError>(Some(level)),
            None => result == Err::<Option<Level>, BridgeError>(BridgeError::LoggerConfig(code)),
        },
{
    if code < 0 {
        Ok(None)
    } else {
        match Level::from_code(code) {
            Some(level) => Ok(Some(level)),
            None => Err(BridgeError::LoggerConfig(code)),
        }
    }
}

/// Resolves the level argument of the log entry point: exactly the six
/// assigned codes are accepted.
pub fn log_level_argument(code: i32) -> (result: Result<Level, BridgeError>)
    ensures
        match spec_level_of_code(code) {
            Some(level) => result == Ok::<Level, BridgeError>(level),
            None => result == Err::<Level, BridgeError>(BridgeError::LoggerConfig(code)),
        },
{
    match Level::from_code(code) {
        Some(level) => Ok(level),
        None => Err(BridgeError::LoggerConfig(code)),
    }
}

/// Sending a level across the boundary and mapping it back yields the
/// same level: the code assignment is injective.
pub proof fn lemma_level_code_round_trip(level: Level)
    ensures
        spec_level_of_code(spec_level_code(level)) == Some(level),
{
}

/// Mapping an assigned code to its level and back yields the same code:
/// the code assignment covers every level exactly once.
pub proof fn lemma_code_level_round_trip(code: i32)
    requires
        0 <= code <= 5,
    ensures
        spec_level_of_code(code) matches Some(level) && spec_level_code(level) == code,
{
}

} // verus!
