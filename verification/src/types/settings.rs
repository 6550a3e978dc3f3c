//! Reasoning-depth settings shared by several providers.

use vstd::prelude::*;
use vstd::string::StringExecFns;

use crate::strutil::str_eq;

verus! {

/// How many thinking tokens a named mode stands for; `custom` uses the
/// configured budget, and an unknown mode falls back to `medium`.
pub open spec fn budget_tokens_of(mode: Seq<char>, custom: u32) -> u32 {
    if mode == "low"@ { 2048 }
    else if mode == "medium"@ { 8192 }
    else if mode == "high"@ { 32768 }
    else if mode == "custom"@ { custom }
    else { 8192 }
}

/// The thinking-budget selection: a named mode and a custom token count.
#[derive(Debug, Clone, PartialEq, Eq)]
pub struct ThinkingBudgetSettings {
    pub mode: String,
    pub custom_budget: u32,
}

impl Default for ThinkingBudgetSettings {
    fn default() -> (r: Self)
        ensures
            r.mode@ == "medium"@,
            r.custom_budget == 16000,
    {
        ThinkingBudgetSettings { mode: String::from_str("medium"), custom_budget: 16000 }
    }
}

impl ThinkingBudgetSettings {
    /// The token budget that the current mode grants.
    pub fn get_budget_tokens(&self) -> (r: u32)
        ensures
            r == budget_tokens_of(self.mode@, self.custom_budget),
    {
        if str_eq(self.mode.as_str(), "low") {
            2048
        } else if str_eq(self.mode.as_str(), "medium") {
            8192
        } else if str_eq(self.mode.as_str(), "high") {
            32768
        } else if str_eq(self.mode.as_str(), "custom") {
            self.custom_budget
        } else {
            8192
        }
    }
}

/// The reasoning-effort selection.
#[derive(Debug, Clone, PartialEq, Eq)]
pub struct ReasoningEffortSettings {
    pub level: String,
}

impl Default for ReasoningEffortSettings {
    fn default() -> (r: Self)
        ensures
            r.level@ == "medium"@,
    {
        ReasoningEffortSettings { level: String::from_str("medium") }
    }
}

} // verus!
