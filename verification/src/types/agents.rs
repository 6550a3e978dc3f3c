//! Detected coding tools and their configuration state.

use vstd::prelude::*;

verus! {

/// A coding tool found on this machine.
#[derive(Debug, Clone, PartialEq, Eq)]
pub struct DetectedTool {
    pub id: String,
    pub name: String,
    pub installed: bool,
    pub config_path: Option<String>,
    pub can_auto_configure: bool,
}

/// Whether a command-line agent is installed and wired to the proxy.
#[derive(Debug, Clone, PartialEq, Eq)]
pub struct AgentStatus {
    pub id: String,
    pub name: String,
    pub description: String,
    pub installed: bool,
    pub configured: bool,
    pub config_type: String,
    pub config_path: Option<String>,
    pub logo: String,
    pub docs_url: String,
}

/// The outcome of a test call made through the proxy on an agent's behalf.
#[derive(Debug, Clone, PartialEq, Eq)]
pub struct AgentTestResult {
    pub success: bool,
    pub message: String,
    pub latency_ms: Option<u64>,
}

/// The settings block a coding agent's install reads.
#[derive(Debug, Clone, PartialEq, Eq)]
pub struct ClaudeCodeSettings {
    pub haiku_model: Option<String>,
    pub opus_model: Option<String>,
    pub sonnet_model: Option<String>,
    pub base_url: Option<String>,
    pub auth_token: Option<String>,
}

} // verus!
