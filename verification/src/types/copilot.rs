//! The secondary bridge process: its configuration block and status.

use vstd::prelude::*;
use vstd::string::StringExecFns;

verus! {

/// The persisted configuration block for the bridge process.
#[derive(Debug, Clone, PartialEq, Eq)]
pub struct CopilotConfig {
    pub enabled: bool,
    pub port: u16,
    pub account_type: String,
    pub github_token: String,
    pub rate_limit: Option<u16>,
    pub rate_limit_wait: bool,
}

/// The mathematical model of a `CopilotConfig`.
#[verifier::ext_equal]
pub struct CopilotConfigV {
    pub enabled: bool,
    pub port: u16,
    pub account_type: Seq<char>,
    pub github_token: Seq<char>,
    pub rate_limit: Option<u16>,
    pub rate_limit_wait: bool,
}

impl DeepView for CopilotConfig {
    type V = CopilotConfigV;

    open spec fn deep_view(&self) -> CopilotConfigV {
        CopilotConfigV {
            enabled: self.enabled,
            port: self.port,
            account_type: self.account_type@,
            github_token: self.github_token@,
            rate_limit: self.rate_limit,
            rate_limit_wait: self.rate_limit_wait,
        }
    }
}

/// The defaulted bridge configuration: disabled, on port 4141, for an
/// individual account, with no token and no rate limit.
pub open spec fn copilot_config_default() -> CopilotConfigV {
    CopilotConfigV {
        enabled: false,
        port: 4141,
        account_type: "individual"@,
        github_token: Seq::empty(),
        rate_limit: None,
        rate_limit_wait: false,
    }
}

impl Default for CopilotConfig {
    fn default() -> (r: Self)
        ensures
            r.deep_view() == copilot_config_default(),
    {
        CopilotConfig {
            enabled: false,
            port: 4141,
            account_type: String::from_str("individual"),
            github_token: String::new(),
            rate_limit: None,
            rate_limit_wait: false,
        }
    }
}

/// The live status of the bridge process.
#[derive(Debug, Clone, PartialEq, Eq)]
pub struct CopilotStatus {
    pub running: bool,
    pub port: u16,
    pub endpoint: String,
    pub authenticated: bool,
}

impl Default for CopilotStatus {
    fn default() -> (r: Self)
        ensures
            !r.running,
            r.port == 4141,
            r.endpoint@ == "http://localhost:4141"@,
            !r.authenticated,
    {
        CopilotStatus {
            running: false,
            port: 4141,
            endpoint: String::from_str("http://localhost:4141"),
            authenticated: false,
        }
    }
}

/// What a scan for the bridge executable found.
#[derive(Debug, Clone, PartialEq, Eq)]
pub struct CopilotApiDetection {
    pub installed: bool,
    pub version: Option<String>,
    pub copilot_bin: Option<String>,
    pub npx_bin: Option<String>,
    pub npm_bin: Option<String>,
    pub node_bin: Option<String>,
    pub node_version: Option<String>,
    pub bunx_bin: Option<String>,
    pub node_available: bool,
    pub checked_node_paths: Vec<String>,
    pub checked_copilot_paths: Vec<String>,
}

/// The outcome of installing the bridge executable.
#[derive(Debug, Clone, PartialEq, Eq)]
pub struct CopilotApiInstallResult {
    pub success: bool,
    pub message: String,
    pub version: Option<String>,
}

} // verus!
