//! Authentication state: per-provider account counts and the transient
//! token that correlates a browser sign-in flow with its callback.

use vstd::prelude::*;

verus! {

/// How many authenticated accounts each upstream provider has.
#[derive(Debug, Clone, PartialEq, Eq)]
pub struct AuthStatus {
    pub claude: u32,
    pub openai: u32,
    pub gemini: u32,
    pub qwen: u32,
    pub iflow: u32,
    pub vertex: u32,
    pub antigravity: u32,
}

impl Default for AuthStatus {
    fn default() -> (r: Self)
        ensures
            r == (AuthStatus {
                claude: 0,
                openai: 0,
                gemini: 0,
                qwen: 0,
                iflow: 0,
                vertex: 0,
                antigravity: 0,
            }),
    {
        AuthStatus {
            claude: 0,
            openai: 0,
            gemini: 0,
            qwen: 0,
            iflow: 0,
            vertex: 0,
            antigravity: 0,
        }
    }
}

/// The pending browser sign-in flow for one provider: consumed exactly once
/// by the matching callback.
#[derive(Debug, Clone, PartialEq, Eq)]
pub struct OAuthState {
    pub provider: String,
    pub state: String,
}

} // verus!
