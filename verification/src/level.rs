//! Severity levels for the entries of a merge log.

use vstd::prelude::*;

verus! {

/// Severity of a merge-log entry, ordered from most to least severe.
///
/// A missing profile is recorded at a caller-chosen level: informational for
/// the top-level request, a warning for profiles referenced from another
/// profile.
#[derive(Clone, Copy, Debug, PartialEq, Eq, Structural)]
pub enum LogLevel {
    Error,
    Warn,
    Info,
    Debug,
    Trace,
}

} // verus!
