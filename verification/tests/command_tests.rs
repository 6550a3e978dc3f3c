use proxypal::commands::proxy::{
    format_proxy_url, get_system_proxy, test_provider_connection, ConnectionOutcome,
};
use proxypal::state::{copilot_endpoint, proxy_endpoint};
use proxypal::strutil::{str_contains, str_eq};
use proxypal::types::settings::{ReasoningEffortSettings, ThinkingBudgetSettings};
use proxypal::types::health::HealthStatus;
use proxypal::types::proxy::ProxyStatus;
use proxypal::types::copilot::CopilotStatus;
use proxypal::types::auth::AuthStatus;

#[test]
fn unreachable_provider_yields_failure_with_message() {
    let r = test_provider_connection(ConnectionOutcome::Unreachable {
        error: String::from("connection refused: http://10.255.255.1:9"),
    });
    assert!(!r.success);
    assert_eq!(r.message, "connection refused: http://10.255.255.1:9");
    assert!(r.latency_ms.is_none());
    assert!(r.models_found.is_none());
}

#[test]
fn unreachable_provider_with_blank_error_still_has_a_message() {
    let r = test_provider_connection(ConnectionOutcome::Unreachable { error: String::new() });
    assert!(!r.success);
    assert!(!r.message.is_empty());
}

#[test]
fn reached_provider_reports_latency_and_models() {
    let r = test_provider_connection(ConnectionOutcome::Reached {
        latency_ms: 42,
        models_found: 7,
    });
    assert!(r.success);
    assert_eq!(r.latency_ms, Some(42));
    assert_eq!(r.models_found, Some(7));
    assert!(!r.message.is_empty());
}

#[test]
fn environment_proxy_wins() {
    let r = get_system_proxy(
        Some((String::from("proxy.corp"), 3128)),
        Err(String::from("ignored")),
    );
    assert_eq!(r, Ok(Some(String::from("http://proxy.corp:3128"))));
}

#[test]
fn socks_host_gets_socks5_scheme() {
    let r = get_system_proxy(None, Ok((true, String::from("socks.local"), 1080)));
    assert_eq!(r, Ok(Some(String::from("socks5://socks.local:1080"))));
}

#[test]
fn plain_host_gets_http_scheme() {
    let r = get_system_proxy(None, Ok((true, String::from("gateway"), 8080)));
    assert_eq!(r, Ok(Some(String::from("http://gateway:8080"))));
}

#[test]
fn disabled_system_proxy_is_none() {
    let r = get_system_proxy(None, Ok((false, String::from("gateway"), 8080)));
    assert_eq!(r, Ok(None));
}

#[test]
fn probe_failure_degrades_to_no_proxy_detected() {
    let r = get_system_proxy(None, Err(String::from("no settings daemon")));
    assert_eq!(r, Ok(None));
}

#[test]
fn proxy_url_formatting() {
    assert_eq!(format_proxy_url("http", "h", 80), "http://h:80");
    assert_eq!(format_proxy_url("socks5", "s", 65535), "socks5://s:65535");
}

#[test]
fn endpoints_follow_the_port() {
    assert_eq!(proxy_endpoint(8317), "http://localhost:8317/v1");
    assert_eq!(proxy_endpoint(1), "http://localhost:1/v1");
    assert_eq!(copilot_endpoint(4141), "http://localhost:4141");
}

#[test]
fn budget_tokens_by_mode() {
    let mut s = ThinkingBudgetSettings::default();
    assert_eq!(s.mode, "medium");
    assert_eq!(s.get_budget_tokens(), 8192);
    s.mode = String::from("low");
    assert_eq!(s.get_budget_tokens(), 2048);
    s.mode = String::from("high");
    assert_eq!(s.get_budget_tokens(), 32768);
    s.mode = String::from("custom");
    s.custom_budget = 12345;
    assert_eq!(s.get_budget_tokens(), 12345);
    s.mode = String::from("unheard-of");
    assert_eq!(s.get_budget_tokens(), 8192);
}

#[test]
fn effort_defaults_to_medium() {
    assert_eq!(ReasoningEffortSettings::default().level, "medium");
}

#[test]
fn status_defaults_match_their_ports() {
    let p = ProxyStatus::default();
    assert!(!p.running);
    assert_eq!(p.port, 8317);
    assert_eq!(p.endpoint, "http://localhost:8317/v1");
    let c = CopilotStatus::default();
    assert!(!c.running);
    assert_eq!(c.port, 4141);
    assert_eq!(c.endpoint, "http://localhost:4141");
    assert!(!c.authenticated);
    let a = AuthStatus::default();
    assert_eq!(a.claude + a.openai + a.gemini + a.qwen + a.iflow + a.vertex + a.antigravity, 0);
    let h = HealthStatus::default();
    assert_eq!(h.status, "unconfigured");
    assert!(h.latency_ms.is_none());
}

#[test]
fn string_helpers_behave() {
    assert!(str_eq("abc", "abc"));
    assert!(!str_eq("abc", "abd"));
    assert!(!str_eq("abc", "ab"));
    assert!(str_contains("socks5h.example", "socks"));
    assert!(!str_contains("gateway", "socks"));
    assert!(str_contains("x", ""));
}
