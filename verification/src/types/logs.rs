//! One parsed line of the proxy's log stream.

use vstd::prelude::*;

verus! {

/// A log line: when, how severe, and what.
#[derive(Debug, Clone, PartialEq, Eq)]
pub struct LogEntry {
    pub timestamp: String,
    pub level: String,
    pub message: String,
}

} // verus!
