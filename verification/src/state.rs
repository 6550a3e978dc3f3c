//! The shared state behind every command, and the commands themselves.
//! Each piece is guarded by its own lock outside the library; here every
//! operation is a whole step on the state, so a caller holding the lock for
//! the duration of one call never exposes a torn update.

use vstd::prelude::*;
use vstd::string::StringExecFns;

use crate::config::{duplicate_config, AppConfig};
use crate::json::{dec_str_nat, push_u64_dec};
use crate::status::StatusRegistry;
use crate::supervisor::{ControlError, ProcEvent, ProcessKind, ProcessMachine, ProcState, proc_step};
use crate::types::auth::OAuthState;
use crate::types::copilot::CopilotStatus;
use crate::types::proxy::ProxyStatus;

verus! {

/// Everything the command surface works on: the configuration document,
/// the status registry, one supervision machine per process kind, the
/// pending sign-in flow, and bookkeeping counters.
pub struct AppState {
    pub config: AppConfig,
    pub registry: StatusRegistry,
    pub primary: ProcessMachine,
    pub secondary: ProcessMachine,
    pub pending_oauth: Option<OAuthState>,
    pub log_watcher_running: bool,
    pub request_counter: u64,
}

impl AppState {
    /// Both supervision machines keep their handle bookkeeping.
    pub open spec fn wf(&self) -> bool {
        self.primary.wf() && self.secondary.wf()
    }

    pub open spec fn machine_of(&self, kind: ProcessKind) -> ProcessMachine {
        match kind {
            ProcessKind::Primary => self.primary,
            ProcessKind::Secondary => self.secondary,
        }
    }

    /// A fresh state: defaulted document, empty registry, nothing running.
    pub fn new() -> (r: Self)
        ensures
            r.wf(),
            r.config.deep_view() == crate::config::app_config_default(),
            r.registry.is_fresh(),
            r.primary.state is Stopped,
            r.primary.handle is None,
            r.primary.stop_reason is None,
            r.secondary.state is Stopped,
            r.secondary.handle is None,
            r.secondary.stop_reason is None,
            r.pending_oauth is None,
            !r.log_watcher_running,
            r.request_counter == 0,
    {
        AppState {
            config: AppConfig::default(),
            registry: StatusRegistry::new(),
            primary: ProcessMachine::new(),
            secondary: ProcessMachine::new(),
            pending_oauth: None,
            log_watcher_running: false,
            request_counter: 0,
        }
    }
}

impl Default for AppState {
    fn default() -> (r: Self)
        ensures
            r.wf(),
            r.config.deep_view() == crate::config::app_config_default(),
            r.registry.is_fresh(),
            r.primary.state is Stopped,
            r.primary.handle is None,
            r.primary.stop_reason is None,
            r.secondary.state is Stopped,
            r.secondary.handle is None,
            r.secondary.stop_reason is None,
            r.pending_oauth is None,
            !r.log_watcher_running,
            r.request_counter == 0,
    {
        AppState::new()
    }
}

/// The address on which the primary proxy serves once bound to `port`.
pub fn proxy_endpoint(port: u16) -> (r: String)
    ensures
        r@ == "http://localhost:"@ + dec_str_nat(port as nat) + "/v1"@,
{
    let mut s = String::from_str("http://localhost:");
    push_u64_dec(port as u64, &mut s);
    s.concat("/v1")
}

/// The address on which the bridge serves once bound to `port`.
pub fn copilot_endpoint(port: u16) -> (r: String)
    ensures
        r@ == "http://localhost:"@ + dec_str_nat(port as nat),
{
    let mut s = String::from_str("http://localhost:");
    push_u64_dec(port as u64, &mut s);
    s
}

/// The current configuration, as a deep copy: nothing the caller does to
/// the returned document can reach the shared one.
pub fn get_config(state: &AppState) -> (r: AppConfig)
    ensures
        r.deep_view() == state.config.deep_view(),
{
    duplicate_config(&state.config)
}

/// Commits an accepted document to memory. The caller persists the
/// document first and commits only on success: a failed save leaves the
/// previous in-memory state intact.
pub fn commit_config(state: &mut AppState, new_config: AppConfig)
    ensures
        final(state).config == new_config,
        final(state).registry == old(state).registry,
        final(state).primary == old(state).primary,
        final(state).secondary == old(state).secondary,
        final(state).pending_oauth == old(state).pending_oauth,
        final(state).log_watcher_running == old(state).log_watcher_running,
        final(state).request_counter == old(state).request_counter,
{
    state.config = new_config;
}

/// The status snapshot a caller polls: each slot copied whole.
pub fn get_status(state: &AppState) -> (r: (ProxyStatus, CopilotStatus))
    ensures
        r.0 == state.registry.proxy,
        r.1 == state.registry.copilot,
{
    (state.registry.read_proxy(), state.registry.read_copilot())
}

/// A start request for one process kind. Only a stopped process accepts
/// it; the rejected request leaves every part of the state unchanged.
pub fn request_start(state: &mut AppState, kind: ProcessKind) -> (r: Result<(), ControlError>)
    requires
        old(state).wf(),
    ensures
        final(state).wf(),
        final(state).machine_of(kind).state == proc_step(
            old(state).machine_of(kind).state,
            ProcEvent::StartRequested,
        ),
        r is Ok <==> old(state).machine_of(kind).state is Stopped,
        r matches Err(e) ==> e == ControlError::AlreadyRunning && *final(state) == *old(state),
        final(state).config == old(state).config,
        final(state).registry == old(state).registry,
        final(state).machine_of(other_kind(kind)) == old(state).machine_of(other_kind(kind)),
{
    match kind {
        ProcessKind::Primary => state.primary.begin_start(),
        ProcessKind::Secondary => state.secondary.begin_start(),
    }
}

pub open spec fn other_kind(kind: ProcessKind) -> ProcessKind {
    match kind {
        ProcessKind::Primary => ProcessKind::Secondary,
        ProcessKind::Secondary => ProcessKind::Primary,
    }
}

/// The spawn for `kind` succeeded: the machine owns the handle, the
/// process counts as running, and the registry slot shows the endpoint the
/// process is bound to.
pub fn confirm_spawn(state: &mut AppState, kind: ProcessKind, handle: u64, port: u16)
    requires
        old(state).wf(),
        old(state).machine_of(kind).state is Starting,
    ensures
        final(state).wf(),
        final(state).machine_of(kind).state is Running,
        final(state).machine_of(kind).handle == Some(handle),
        final(state).machine_of(other_kind(kind)) == old(state).machine_of(other_kind(kind)),
        final(state).config == old(state).config,
        kind is Primary ==> final(state).registry.proxy == (ProxyStatus {
            running: true,
            port,
            endpoint: final(state).registry.proxy.endpoint,
        }) && final(state).registry.proxy.endpoint@ == "http://localhost:"@ + dec_str_nat(
            port as nat,
        ) + "/v1"@ && final(state).registry.copilot == old(state).registry.copilot,
        kind is Secondary ==> final(state).registry.copilot == (CopilotStatus {
            running: true,
            port,
            endpoint: final(state).registry.copilot.endpoint,
            authenticated: old(state).registry.copilot.authenticated,
        }) && final(state).registry.copilot.endpoint@ == "http://localhost:"@ + dec_str_nat(
            port as nat,
        ) && final(state).registry.proxy == old(state).registry.proxy,
        final(state).registry.auth == old(state).registry.auth,
{
    match kind {
        ProcessKind::Primary => {
            state.primary.start_spawned(handle);
            let endpoint = proxy_endpoint(port);
            state.registry.write_proxy(ProxyStatus { running: true, port, endpoint });
        },
        ProcessKind::Secondary => {
            state.secondary.start_spawned(handle);
            let endpoint = copilot_endpoint(port);
            let authenticated = state.registry.copilot.authenticated;
            state.registry.write_copilot(
                CopilotStatus { running: true, port, endpoint, authenticated },
            );
        },
    }
}

/// The spawn for `kind` failed: the machine is back in `Stopped` with the
/// reason recorded, the registry shows it not running, and the caller gets
/// the spawn error to surface.
pub fn fail_spawn(state: &mut AppState, kind: ProcessKind, reason: String) -> (r: ControlError)
    requires
        old(state).wf(),
        old(state).machine_of(kind).state is Starting,
    ensures
        final(state).wf(),
        final(state).machine_of(kind).state is Stopped,
        final(state).machine_of(kind).handle is None,
        final(state).machine_of(other_kind(kind)) == old(state).machine_of(other_kind(kind)),
        final(state).config == old(state).config,
        r == ControlError::Spawn(reason),
        kind is Primary ==> !final(state).registry.proxy.running,
        kind is Secondary ==> !final(state).registry.copilot.running,
{
    match kind {
        ProcessKind::Primary => {
            state.primary.start_failed(reason.clone());
            let port = state.registry.proxy.port;
            let endpoint = state.registry.proxy.endpoint.clone();
            state.registry.write_proxy(ProxyStatus { running: false, port, endpoint });
        },
        ProcessKind::Secondary => {
            state.secondary.start_failed(reason.clone());
            let port = state.registry.copilot.port;
            let endpoint = state.registry.copilot.endpoint.clone();
            let authenticated = state.registry.copilot.authenticated;
            state.registry.write_copilot(
                CopilotStatus { running: false, port, endpoint, authenticated },
            );
        },
    }
    ControlError::Spawn(reason)
}

/// A stop request for one process kind. On an already-stopped process it
/// succeeds with no side effects at all; otherwise it hands back the child
/// handle that the caller must terminate before confirming.
pub fn request_stop(state: &mut AppState, kind: ProcessKind) -> (r: (bool, Option<u64>))
    requires
        old(state).wf(),
        !(old(state).machine_of(kind).state is Starting),
    ensures
        final(state).wf(),
        final(state).machine_of(kind).state == proc_step(
            old(state).machine_of(kind).state,
            ProcEvent::StopRequested,
        ),
        r.0 <==> !(old(state).machine_of(kind).state is Stopped),
        !r.0 ==> *final(state) == *old(state),
        r.1 == old(state).machine_of(kind).handle,
        final(state).machine_of(other_kind(kind)) == old(state).machine_of(other_kind(kind)),
        final(state).config == old(state).config,
        final(state).registry == old(state).registry,
{
    match kind {
        ProcessKind::Primary => state.primary.begin_stop(),
        ProcessKind::Secondary => state.secondary.begin_stop(),
    }
}

/// Termination of `kind` is confirmed: the machine ends `Stopped`, and the
/// registry shows the process not running. Stop never returns leaving a
/// status that says running.
pub fn confirm_stop(state: &mut AppState, kind: ProcessKind, reason: String)
    requires
        old(state).wf(),
        old(state).machine_of(kind).state is Stopping,
    ensures
        final(state).wf(),
        final(state).machine_of(kind).state is Stopped,
        final(state).machine_of(kind).handle is None,
        final(state).machine_of(other_kind(kind)) == old(state).machine_of(other_kind(kind)),
        final(state).config == old(state).config,
        kind is Primary ==> !final(state).registry.proxy.running && final(state).registry.copilot
            == old(state).registry.copilot,
        kind is Secondary ==> !final(state).registry.copilot.running && final(state).registry.proxy
            == old(state).registry.proxy,
{
    match kind {
        ProcessKind::Primary => {
            state.primary.stop_confirmed(reason);
            let port = state.registry.proxy.port;
            let endpoint = state.registry.proxy.endpoint.clone();
            state.registry.write_proxy(ProxyStatus { running: false, port, endpoint });
        },
        ProcessKind::Secondary => {
            state.secondary.stop_confirmed(reason);
            let port = state.registry.copilot.port;
            let endpoint = state.registry.copilot.endpoint.clone();
            let authenticated = state.registry.copilot.authenticated;
            state.registry.write_copilot(
                CopilotStatus { running: false, port, endpoint, authenticated },
            );
        },
    }
}

/// The watcher saw the child of `kind` exit on its own. Only a `Running`
/// process is downgraded — a stale report after a stop changes nothing —
/// and the recorded reason is never empty. Nothing but an explicit start
/// can bring the process back to running.
pub fn observe_exit(state: &mut AppState, kind: ProcessKind, reason: String)
    requires
        old(state).wf(),
    ensures
        final(state).wf(),
        final(state).machine_of(kind).state == proc_step(
            old(state).machine_of(kind).state,
            ProcEvent::ExitObserved,
        ),
        old(state).machine_of(kind).state is Running ==> final(state).machine_of(kind).state
            is Stopped && (final(state).machine_of(kind).stop_reason matches Some(m)
            && m@.len() > 0),
        !(old(state).machine_of(kind).state is Running) ==> *final(state) == *old(state),
        final(state).machine_of(other_kind(kind)) == old(state).machine_of(other_kind(kind)),
        final(state).config == old(state).config,
        old(state).machine_of(kind).state is Running && kind is Primary ==> !final(state).registry.proxy.running,
        old(state).machine_of(kind).state is Running && kind is Secondary ==> !final(state).registry.copilot.running,
{
    match kind {
        ProcessKind::Primary => {
            let was_running = match state.primary.state {
                ProcState::Running => true,
                _ => false,
            };
            state.primary.observe_exit(reason);
            if was_running {
                let port = state.registry.proxy.port;
                let endpoint = state.registry.proxy.endpoint.clone();
                state.registry.write_proxy(ProxyStatus { running: false, port, endpoint });
            }
        },
        ProcessKind::Secondary => {
            let was_running = match state.secondary.state {
                ProcState::Running => true,
                _ => false,
            };
            state.secondary.observe_exit(reason);
            if was_running {
                let port = state.registry.copilot.port;
                let endpoint = state.registry.copilot.endpoint.clone();
                let authenticated = state.registry.copilot.authenticated;
                state.registry.write_copilot(
                    CopilotStatus { running: false, port, endpoint, authenticated },
                );
            }
        },
    }
}

/// Which processes must restart to honour a document about to replace the
/// current one: exactly the affected ones among those now running.
pub fn plan_reconcile(state: &AppState, new_config: &AppConfig) -> (r: (bool, bool))
    ensures
        r.0 == (crate::reconcile::primary_affected(
            state.config.deep_view(),
            new_config.deep_view(),
        ) && state.primary.state is Running),
        r.1 == (crate::reconcile::secondary_affected(
            state.config.deep_view(),
            new_config.deep_view(),
        ) && state.secondary.state is Running),
{
    let (p, s) = crate::reconcile::affected_processes(&state.config, new_config);
    let p_running = match state.primary.state {
        ProcState::Running => true,
        _ => false,
    };
    let s_running = match state.secondary.state {
        ProcState::Running => true,
        _ => false,
    };
    (p && p_running, s && s_running)
}

/// Begins a sign-in flow for one provider, replacing any stale pending
/// flow: at most one is pending at a time.
pub fn begin_oauth(state: &mut AppState, flow: OAuthState)
    ensures
        final(state).pending_oauth == Some(flow),
        final(state).config == old(state).config,
        final(state).registry == old(state).registry,
        final(state).primary == old(state).primary,
        final(state).secondary == old(state).secondary,
{
    state.pending_oauth = Some(flow);
}

/// Consumes the pending sign-in flow exactly once: the callback that takes
/// it leaves none behind, and a second callback finds nothing.
pub fn take_oauth(state: &mut AppState) -> (r: Option<OAuthState>)
    ensures
        r == old(state).pending_oauth,
        final(state).pending_oauth is None,
        final(state).config == old(state).config,
        final(state).registry == old(state).registry,
        final(state).primary == old(state).primary,
        final(state).secondary == old(state).secondary,
{
    state.pending_oauth.take()
}

} // verus!
