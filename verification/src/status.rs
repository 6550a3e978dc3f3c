//! The status registry: one slot per tracked status. Each write replaces a
//! whole slot, so a reader never observes a torn value; callers keep the
//! critical section around these calls as small as possible.

use vstd::prelude::*;

use crate::types::auth::AuthStatus;
use crate::types::copilot::CopilotStatus;
use crate::types::proxy::ProxyStatus;

verus! {

/// The in-memory holder of current status: the primary proxy, the bridge,
/// and the per-provider authentication counts.
#[derive(Debug)]
pub struct StatusRegistry {
    pub proxy: ProxyStatus,
    pub copilot: CopilotStatus,
    pub auth: AuthStatus,
}

impl StatusRegistry {
    /// Every slot at its starting value: neither process running, the
    /// default endpoints, no authentication anywhere.
    pub open spec fn is_fresh(&self) -> bool {
        &&& !self.proxy.running
        &&& self.proxy.port == 8317
        &&& self.proxy.endpoint@ == "http://localhost:8317/v1"@
        &&& !self.copilot.running
        &&& self.copilot.port == 4141
        &&& self.copilot.endpoint@ == "http://localhost:4141"@
        &&& !self.copilot.authenticated
        &&& self.auth == (AuthStatus {
            claude: 0,
            openai: 0,
            gemini: 0,
            qwen: 0,
            iflow: 0,
            vertex: 0,
            antigravity: 0,
        })
    }

    /// A registry with every slot at its default.
    pub fn new() -> (r: Self)
        ensures
            r.is_fresh(),
    {
        StatusRegistry {
            proxy: ProxyStatus::default(),
            copilot: CopilotStatus::default(),
            auth: AuthStatus::default(),
        }
    }

    /// The latest committed proxy status, as a snapshot copy.
    pub fn read_proxy(&self) -> (r: ProxyStatus)
        ensures
            r == self.proxy,
    {
        ProxyStatus {
            running: self.proxy.running,
            port: self.proxy.port,
            endpoint: self.proxy.endpoint.clone(),
        }
    }

    /// The latest committed bridge status, as a snapshot copy.
    pub fn read_copilot(&self) -> (r: CopilotStatus)
        ensures
            r == self.copilot,
    {
        CopilotStatus {
            running: self.copilot.running,
            port: self.copilot.port,
            endpoint: self.copilot.endpoint.clone(),
            authenticated: self.copilot.authenticated,
        }
    }

    /// The latest committed authentication counts, as a snapshot copy.
    pub fn read_auth(&self) -> (r: AuthStatus)
        ensures
            r == self.auth,
    {
        AuthStatus {
            claude: self.auth.claude,
            openai: self.auth.openai,
            gemini: self.auth.gemini,
            qwen: self.auth.qwen,
            iflow: self.auth.iflow,
            vertex: self.auth.vertex,
            antigravity: self.auth.antigravity,
        }
    }

    /// Replaces the proxy slot atomically; the other slots are untouched.
    pub fn write_proxy(&mut self, v: ProxyStatus)
        ensures
            final(self).proxy == v,
            final(self).copilot == old(self).copilot,
            final(self).auth == old(self).auth,
    {
        self.proxy = v;
    }

    /// Replaces the bridge slot atomically; the other slots are untouched.
    pub fn write_copilot(&mut self, v: CopilotStatus)
        ensures
            final(self).copilot == v,
            final(self).proxy == old(self).proxy,
            final(self).auth == old(self).auth,
    {
        self.copilot = v;
    }

    /// Replaces the authentication slot atomically; the other slots are
    /// untouched.
    pub fn write_auth(&mut self, v: AuthStatus)
        ensures
            final(self).auth == v,
            final(self).proxy == old(self).proxy,
            final(self).copilot == old(self).copilot,
    {
        self.auth = v;
    }
}

} // verus!
