//! Support library for short-lived client programs: a date-stamped
//! cache-aside store and a resilient, retrying HTTP query layer.
//!
//! The policy decisions live here, verified: path computation, cache-aside
//! control flow, retry/backoff arithmetic, and failure classification.
//! The surrounding glue (real file and network I/O, logger wiring) sits in
//! a thin unverified layer that hands this library plain values.

use vstd::prelude::*;

pub mod cache;
pub mod date;
pub mod query;

verus! {

/// How much logging a caller asked for.
#[derive(Clone, Copy, PartialEq, Eq, Structural, Debug)]
pub enum Verbosity {
    Trace,
    Debug,
    Info,
}

/// The log levels that the logging glue distinguishes.
#[derive(Clone, Copy, PartialEq, Eq, Structural, Debug)]
pub enum LogLevel {
    Trace,
    Debug,
    Info,
    Warn,
}

impl From<u8> for Verbosity {
    fn from(value: u8) -> (r: Self) {
        match value {
            1 => Self::Debug,
            2 => Self::Trace,
            _ => Self::Info,
        }
    }
}

impl vstd::std_specs::convert::FromSpecImpl<u8> for Verbosity {
    open spec fn obeys_from_spec() -> bool {
        true
    }

    open spec fn from_spec(value: u8) -> Self {
        if value == 1 {
            Verbosity::Debug
        } else if value == 2 {
            Verbosity::Trace
        } else {
            Verbosity::Info
        }
    }
}

impl From<bool> for Verbosity {
    fn from(value: bool) -> (r: Self) {
        if value {
            Self::Debug
        } else {
            Self::Info
        }
    }
}

impl vstd::std_specs::convert::FromSpecImpl<bool> for Verbosity {
    open spec fn obeys_from_spec() -> bool {
        true
    }

    open spec fn from_spec(value: bool) -> Self {
        if value {
            Verbosity::Debug
        } else {
            Verbosity::Info
        }
    }
}

impl From<Verbosity> for LogLevel {
    fn from(value: Verbosity) -> (r: Self) {
        match value {
            Verbosity::Trace => Self::Trace,
            Verbosity::Debug => Self::Debug,
            Verbosity::Info => Self::Info,
        }
    }
}

impl vstd::std_specs::convert::FromSpecImpl<Verbosity> for LogLevel {
    open spec fn obeys_from_spec() -> bool {
        true
    }

    open spec fn from_spec(value: Verbosity) -> Self {
        match value {
            Verbosity::Trace => LogLevel::Trace,
            Verbosity::Debug => LogLevel::Debug,
            Verbosity::Info => LogLevel::Info,
        }
    }
}

} // verus!
