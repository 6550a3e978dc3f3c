//! Per-provider health snapshots.

use vstd::prelude::*;
use vstd::string::StringExecFns;

verus! {

/// Health of every upstream provider at one instant.
#[derive(Debug, Clone, PartialEq, Eq)]
pub struct ProviderHealth {
    pub claude: HealthStatus,
    pub openai: HealthStatus,
    pub gemini: HealthStatus,
    pub qwen: HealthStatus,
    pub iflow: HealthStatus,
    pub vertex: HealthStatus,
    pub antigravity: HealthStatus,
}

/// One provider's health: a state word, the last probe's latency, and when
/// it was last checked.
#[derive(Debug, Clone, PartialEq, Eq)]
pub struct HealthStatus {
    pub status: String,
    pub latency_ms: Option<u64>,
    pub last_checked: u64,
}

impl Default for HealthStatus {
    fn default() -> (r: Self)
        ensures
            r.status@ == "unconfigured"@,
            r.latency_ms is None,
            r.last_checked == 0,
    {
        HealthStatus {
            status: String::from_str("unconfigured"),
            latency_ms: None,
            last_checked: 0,
        }
    }
}

} // verus!
