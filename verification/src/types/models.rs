//! Model listings and provider connection probes.

use vstd::prelude::*;

verus! {

/// One model offered by the proxy, with the source that authenticates it.
#[derive(Debug, Clone, PartialEq, Eq)]
pub struct AvailableModel {
    pub id: String,
    pub owned_by: String,
    pub source: String,
}

/// The outcome of probing a provider endpoint.
#[derive(Debug, Clone, PartialEq, Eq)]
pub struct ProviderTestResult {
    pub success: bool,
    pub message: String,
    pub latency_ms: Option<u64>,
    pub models_found: Option<u32>,
}

} // verus!
