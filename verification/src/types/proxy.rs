//! The live status of the primary proxy process.

use vstd::prelude::*;
use vstd::string::StringExecFns;

verus! {

/// Whether the primary proxy runs, and where it listens.
#[derive(Debug, Clone, PartialEq, Eq)]
pub struct ProxyStatus {
    pub running: bool,
    pub port: u16,
    pub endpoint: String,
}

impl Default for ProxyStatus {
    fn default() -> (r: Self)
        ensures
            !r.running,
            r.port == 8317,
            r.endpoint@ == "http://localhost:8317/v1"@,
    {
        ProxyStatus {
            running: false,
            port: 8317,
            endpoint: String::from_str("http://localhost:8317/v1"),
        }
    }
}

} // verus!
