use proxypal::state::{
    commit_config, confirm_spawn, confirm_stop, get_config, get_status, observe_exit,
    plan_reconcile, request_start, request_stop, AppState,
};
use proxypal::commands::config::save_config;
use proxypal::config::AppConfig;
use proxypal::supervisor::{ControlError, ProcState, ProcessKind, ProcessMachine};

#[test]
fn only_first_start_succeeds_without_a_stop() {
    let mut st = AppState::new();
    assert!(request_start(&mut st, ProcessKind::Primary).is_ok());
    confirm_spawn(&mut st, ProcessKind::Primary, 101, 8317);
    assert_eq!(st.primary.state, ProcState::Running);
    for _ in 0..3 {
        let r = request_start(&mut st, ProcessKind::Primary);
        assert_eq!(r, Err(ControlError::AlreadyRunning));
        assert_eq!(st.primary.state, ProcState::Running);
    }
    assert!(st.registry.proxy.running);
    assert_eq!(st.registry.proxy.endpoint, "http://localhost:8317/v1");
}

#[test]
fn stop_on_stopped_process_is_a_successful_no_op() {
    let mut st = AppState::new();
    let before_proxy = st.registry.proxy.clone();
    let (needs_termination, handle) = request_stop(&mut st, ProcessKind::Primary);
    assert!(!needs_termination);
    assert!(handle.is_none());
    assert_eq!(st.primary.state, ProcState::Stopped);
    assert_eq!(st.registry.proxy, before_proxy);
}

#[test]
fn stop_terminates_and_records_stopped() {
    let mut st = AppState::new();
    request_start(&mut st, ProcessKind::Secondary).unwrap();
    confirm_spawn(&mut st, ProcessKind::Secondary, 7, 4141);
    assert!(st.registry.copilot.running);
    let (needs_termination, handle) = request_stop(&mut st, ProcessKind::Secondary);
    assert!(needs_termination);
    assert_eq!(handle, Some(7));
    confirm_stop(&mut st, ProcessKind::Secondary, String::from("stopped by user"));
    assert_eq!(st.secondary.state, ProcState::Stopped);
    assert!(st.secondary.handle.is_none());
    assert!(!st.registry.copilot.running);
}

#[test]
fn unexpected_exit_records_reason_and_stays_down() {
    let mut st = AppState::new();
    request_start(&mut st, ProcessKind::Primary).unwrap();
    confirm_spawn(&mut st, ProcessKind::Primary, 11, 8317);
    observe_exit(&mut st, ProcessKind::Primary, String::from(""));
    assert_eq!(st.primary.state, ProcState::Stopped);
    let reason = st.primary.stop_reason.clone().expect("a reason is recorded");
    assert!(!reason.is_empty());
    assert!(!st.registry.proxy.running);
    // A stale or repeated exit report cannot resurrect the process.
    observe_exit(&mut st, ProcessKind::Primary, String::from("stale"));
    assert_eq!(st.primary.state, ProcState::Stopped);
    assert!(!st.registry.proxy.running);
    // Only an explicit start brings it back.
    assert!(request_start(&mut st, ProcessKind::Primary).is_ok());
}

#[test]
fn spawn_failure_surfaces_and_leaves_stopped() {
    let mut st = AppState::new();
    request_start(&mut st, ProcessKind::Primary).unwrap();
    let e = proxypal::state::fail_spawn(
        &mut st,
        ProcessKind::Primary,
        String::from("missing binary"),
    );
    assert_eq!(e, ControlError::Spawn(String::from("missing binary")));
    assert_eq!(st.primary.state, ProcState::Stopped);
    assert!(!st.registry.proxy.running);
    assert!(request_start(&mut st, ProcessKind::Primary).is_ok());
}

#[test]
fn machines_are_independent_per_kind() {
    let mut st = AppState::new();
    request_start(&mut st, ProcessKind::Primary).unwrap();
    confirm_spawn(&mut st, ProcessKind::Primary, 1, 8317);
    assert_eq!(st.secondary.state, ProcState::Stopped);
    assert!(request_start(&mut st, ProcessKind::Secondary).is_ok());
}

#[test]
fn fresh_machine_holds_nothing() {
    let m = ProcessMachine::new();
    assert_eq!(m.state, ProcState::Stopped);
    assert!(m.handle.is_none());
    assert!(m.stop_reason.is_none());
}

#[test]
fn port_change_restarts_only_running_primary() {
    // Scenario: initial document has port 8317 and empty credential lists;
    // the save carries port 8765.
    let mut st = AppState::new();
    assert_eq!(st.config.port, 8317);
    assert!(st.config.claude_api_keys.is_empty());
    assert!(st.config.gemini_api_keys.is_empty());

    request_start(&mut st, ProcessKind::Primary).unwrap();
    let port = st.config.port;
    confirm_spawn(&mut st, ProcessKind::Primary, 42, port);
    assert_eq!(st.registry.proxy.endpoint, "http://localhost:8317/v1");

    let mut new_config = get_config(&st);
    new_config.port = 8765;

    let (restart_primary, restart_secondary) = plan_reconcile(&st, &new_config);
    assert!(restart_primary);
    assert!(!restart_secondary);

    // Persist first (the write succeeded), then commit.
    let rendered = proxypal::config::render_config(&new_config);
    let (reloaded, _) = proxypal::config::load_config_text(&rendered);
    assert_eq!(reloaded.port, 8765);
    assert!(save_config(&mut st, new_config, None).is_ok());
    assert_eq!(st.config.port, 8765);

    // Restart the affected process with the new launch specification.
    let (needs_termination, _) = request_stop(&mut st, ProcessKind::Primary);
    assert!(needs_termination);
    confirm_stop(&mut st, ProcessKind::Primary, String::from("restart"));
    request_start(&mut st, ProcessKind::Primary).unwrap();
    let new_port = st.config.port;
    confirm_spawn(&mut st, ProcessKind::Primary, 43, new_port);
    assert!(st.registry.proxy.running);
    assert_eq!(st.registry.proxy.port, 8765);
    assert_eq!(st.registry.proxy.endpoint, "http://localhost:8765/v1");
}

#[test]
fn failed_save_leaves_memory_untouched() {
    let mut st = AppState::new();
    let mut new_config = get_config(&st);
    new_config.port = 9999;
    let r = save_config(&mut st, new_config, Some(String::from("disk full")));
    assert_eq!(r, Err(ControlError::Persistence(String::from("disk full"))));
    assert_eq!(st.config.port, 8317);
}

#[test]
fn copilot_change_affects_only_secondary() {
    let mut st = AppState::new();
    request_start(&mut st, ProcessKind::Primary).unwrap();
    confirm_spawn(&mut st, ProcessKind::Primary, 1, 8317);
    request_start(&mut st, ProcessKind::Secondary).unwrap();
    confirm_spawn(&mut st, ProcessKind::Secondary, 2, 4141);

    let mut new_config = get_config(&st);
    new_config.copilot.github_token = String::from("ghp_new");
    let (p, s) = plan_reconcile(&st, &new_config);
    assert!(!p);
    assert!(s);
}

#[test]
fn unaffecting_change_restarts_nothing() {
    let mut st = AppState::new();
    request_start(&mut st, ProcessKind::Primary).unwrap();
    confirm_spawn(&mut st, ProcessKind::Primary, 1, 8317);
    let mut new_config = get_config(&st);
    new_config.close_to_tray = false;
    new_config.usage_stats_enabled = false;
    let (p, s) = plan_reconcile(&st, &new_config);
    assert!(!p);
    assert!(!s);
}

#[test]
fn stopped_process_is_not_restarted_by_a_port_change() {
    let st = AppState::new();
    let mut new_config = get_config(&st);
    new_config.port = 8765;
    let (p, s) = plan_reconcile(&st, &new_config);
    assert!(!p);
    assert!(!s);
}

#[test]
fn status_snapshot_is_a_copy() {
    let mut st = AppState::new();
    let (proxy, copilot) = get_status(&st);
    assert!(!proxy.running);
    assert_eq!(proxy.port, 8317);
    assert!(!copilot.running);
    assert_eq!(copilot.port, 4141);
    let (mut proxy2, _) = get_status(&st);
    proxy2.running = true;
    assert!(!st.registry.proxy.running);
    commit_config(&mut st, AppConfig::default());
}

#[test]
fn restart_failure_after_save_is_a_partial_failure() {
    let ok = proxypal::reconcile::apply_outcome(None, None);
    assert!(ok.is_ok());
    let p = proxypal::reconcile::apply_outcome(Some(String::from("port already bound")), None);
    assert_eq!(
        p,
        Err(ControlError::ReconciliationPartial(
            ProcessKind::Primary,
            String::from("port already bound")
        ))
    );
    let s = proxypal::reconcile::apply_outcome(None, Some(String::from("missing bridge binary")));
    assert_eq!(
        s,
        Err(ControlError::ReconciliationPartial(
            ProcessKind::Secondary,
            String::from("missing bridge binary")
        ))
    );
}

#[test]
fn every_error_variant_has_a_message() {
    let variants = vec![
        ControlError::Persistence(String::from("disk full")),
        ControlError::Spawn(String::from("missing binary")),
        ControlError::AlreadyRunning,
        ControlError::NotRunning,
        ControlError::Timeout,
        ControlError::ReconciliationPartial(ProcessKind::Primary, String::from("port in use")),
        ControlError::ReconciliationPartial(ProcessKind::Secondary, String::from("no binary")),
    ];
    for v in &variants {
        assert!(!v.message().is_empty());
    }
    assert_eq!(
        ControlError::Persistence(String::from("disk full")).message(),
        "could not save the configuration: disk full"
    );
    assert_eq!(ControlError::AlreadyRunning.message(), "already running");
}

#[test]
fn oauth_flow_is_consumed_exactly_once() {
    let mut st = AppState::new();
    proxypal::state::begin_oauth(
        &mut st,
        proxypal::types::auth::OAuthState {
            provider: String::from("gemini"),
            state: String::from("abc123"),
        },
    );
    let taken = proxypal::state::take_oauth(&mut st).expect("the flow is pending");
    assert_eq!(taken.provider, "gemini");
    assert!(proxypal::state::take_oauth(&mut st).is_none());
}
