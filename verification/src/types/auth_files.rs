//! One stored credential file as the management API reports it.

use vstd::prelude::*;

verus! {

/// A credential file with its provider, state and bookkeeping fields.
#[derive(Debug, Clone, PartialEq, Eq)]
pub struct AuthFile {
    pub id: String,
    pub name: String,
    pub provider: String,
    pub label: Option<String>,
    pub status: String,
    pub status_message: Option<String>,
    pub disabled: bool,
    pub unavailable: bool,
    pub runtime_only: bool,
    pub source: Option<String>,
    pub path: Option<String>,
    pub size: Option<u64>,
    pub modtime: Option<String>,
    pub email: Option<String>,
    pub account_type: Option<String>,
    pub account: Option<String>,
    pub created_at: Option<String>,
    pub updated_at: Option<String>,
    pub last_refresh: Option<String>,
    pub success_count: Option<u64>,
    pub failure_count: Option<u64>,
}

} // verus!
