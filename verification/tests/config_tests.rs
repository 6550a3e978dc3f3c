use proxypal::config::{
    get_auth_path, get_config_path, get_history_path, load_config_text, migrate_config,
    render_config, duplicate_config, AppConfig,
};
use proxypal::json::{json_eq, json_to_string, parse_json, Json};
use proxypal::codec::{config_from_json, config_to_json};
use proxypal::types::amp::{AmpModelMapping, AmpOpenAIModel, AmpOpenAIProvider};
use proxypal::types::api_keys::{ClaudeApiKey, ModelMapping};
use proxypal::types::copilot::CopilotConfig;

fn sample_config() -> AppConfig {
    let mut c = AppConfig::default();
    c.port = 9000;
    c.proxy_url = String::from("http://127.0.0.1:7890");
    c.request_retry = 3;
    c.debug = true;
    c.amp_api_key = String::from("amp-key");
    c.amp_model_mappings = vec![AmpModelMapping {
        from: String::from("gpt-4"),
        to: String::from("model-three"),
        enabled: false,
    }];
    c.amp_openai_providers = vec![AmpOpenAIProvider {
        id: String::from("p-1"),
        name: String::from("local"),
        base_url: String::from("http://localhost:1234/v1"),
        api_key: String::from("sk-test"),
        models: vec![AmpOpenAIModel { name: String::from("m1"), alias: String::from("a1") }],
    }];
    c.claude_api_keys = vec![ClaudeApiKey {
        api_key: String::from("sk-ant"),
        base_url: Some(String::from("https://api.example.com")),
        proxy_url: None,
        headers: Some(vec![(String::from("x-a"), String::from("1"))]),
        models: Some(vec![ModelMapping { name: String::from("model-three"), alias: None }]),
        excluded_models: Some(vec![String::from("old-model")]),
    }];
    c.copilot = CopilotConfig {
        enabled: true,
        port: 4242,
        account_type: String::from("business"),
        github_token: String::from("ghp_x"),
        rate_limit: Some(10),
        rate_limit_wait: true,
    };
    c.thinking_budget_mode = String::from("custom");
    c.thinking_budget_custom = 4096;
    c.max_retry_interval = -5;
    c
}

#[test]
fn default_document_is_fully_populated() {
    let c = AppConfig::default();
    assert_eq!(c.port, 8317);
    assert!(c.auto_start);
    assert!(!c.launch_at_login);
    assert!(c.usage_stats_enabled);
    assert!(c.request_logging);
    assert!(c.logging_to_file);
    assert_eq!(c.logs_max_total_size_mb, 100);
    assert_eq!(c.config_version, 1);
    assert_eq!(c.amp_routing_mode, "mappings");
    assert_eq!(c.thinking_budget_mode, "medium");
    assert_eq!(c.thinking_budget_custom, 16000);
    assert_eq!(c.reasoning_effort_level, "medium");
    assert!(c.close_to_tray);
    assert_eq!(c.proxy_api_key, "proxypal-local");
    assert_eq!(c.copilot.port, 4141);
    assert_eq!(c.copilot.account_type, "individual");
}

#[test]
fn saved_and_reloaded_document_is_field_for_field_equal() {
    let c = sample_config();
    let text = render_config(&c);
    let parsed = parse_json(&text).expect("rendered text parses");
    let back = config_from_json(&parsed).expect("parsed value decodes");
    assert_eq!(back, c);
}

#[test]
fn default_document_round_trips_through_text() {
    let c = AppConfig::default();
    let text = render_config(&c);
    let (back, changed) = load_config_text(&text);
    assert!(!changed);
    assert_eq!(back, c);
}

#[test]
fn json_value_round_trips_through_text() {
    let c = sample_config();
    let j = config_to_json(&c);
    let text = json_to_string(&j);
    let parsed = parse_json(&text).expect("printer output parses");
    assert!(json_eq(&j, &parsed));
}

#[test]
fn rendered_text_is_standard_json() {
    let c = sample_config();
    let text = render_config(&c);
    let v: serde_json::Value = serde_json::from_str(&text).expect("other readers accept it");
    assert_eq!(v["port"], serde_json::Value::from(9000));
    assert_eq!(v["copilot"]["accountType"], serde_json::Value::from("business"));
    assert_eq!(v["claudeApiKeys"][0]["apiKey"], serde_json::Value::from("sk-ant"));
    assert_eq!(v["maxRetryInterval"], serde_json::Value::from(-5));
}

#[test]
fn malformed_text_degrades_to_default() {
    let (c, changed) = load_config_text("{ not json at all");
    assert!(!changed);
    assert_eq!(c, AppConfig::default());
}

#[test]
fn missing_file_shape_degrades_to_default() {
    let (c, _) = load_config_text("");
    assert_eq!(c, AppConfig::default());
}

#[test]
fn missing_required_field_degrades_to_default() {
    // No "port" at all: the document does not fit the schema.
    let (c, _) = load_config_text("{\"autoStart\":true,\"launchAtLogin\":false}");
    assert_eq!(c, AppConfig::default());
}

#[test]
fn absent_optional_fields_are_defaulted() {
    let text = "{\"port\":1234,\"autoStart\":false,\"launchAtLogin\":true}";
    let (c, changed) = load_config_text(text);
    assert!(!changed);
    assert_eq!(c.port, 1234);
    assert!(!c.auto_start);
    assert!(c.launch_at_login);
    assert_eq!(c.logs_max_total_size_mb, 100);
    assert_eq!(c.config_version, 1);
    assert!(c.usage_stats_enabled);
    assert!(c.close_to_tray);
    assert_eq!(c.proxy_api_key, "proxypal-local");
    assert_eq!(c.copilot.port, 4141);
    // Fields whose absence the storage schema defaults to their zero values.
    assert!(!c.request_logging);
    assert_eq!(c.amp_routing_mode, "");
}

#[test]
fn unknown_fields_are_ignored() {
    let text = "{\"port\":1234,\"autoStart\":true,\"launchAtLogin\":false,\"someFutureField\":42}";
    let (c, _) = load_config_text(text);
    assert_eq!(c.port, 1234);
}

#[test]
fn deprecated_provider_field_is_promoted_into_the_list() {
    let text = "{\"port\":8317,\"autoStart\":true,\"launchAtLogin\":false,\"ampOpenaiProvider\":{\"id\":\"keep-me\",\"name\":\"n\",\"baseUrl\":\"http://b\",\"apiKey\":\"k\"}}";
    let (c, changed) = load_config_text(text);
    assert!(changed);
    assert!(c.amp_openai_provider.is_none());
    assert_eq!(c.amp_openai_providers.len(), 1);
    let p = &c.amp_openai_providers[0];
    assert_eq!(p.id, "keep-me");
    assert_eq!(p.name, "n");
    assert_eq!(p.base_url, "http://b");
    assert_eq!(p.api_key, "k");
}

#[test]
fn promoted_provider_without_id_gets_a_fresh_one() {
    let text = "{\"port\":8317,\"autoStart\":true,\"launchAtLogin\":false,\"ampOpenaiProvider\":{\"name\":\"n\",\"baseUrl\":\"http://b\",\"apiKey\":\"k\"}}";
    let (c, changed) = load_config_text(text);
    assert!(changed);
    assert_eq!(c.amp_openai_providers.len(), 1);
    assert_eq!(c.amp_openai_providers[0].id.len(), 36);
}

#[test]
fn migration_runs_at_most_once() {
    let text = "{\"port\":8317,\"autoStart\":true,\"launchAtLogin\":false,\"ampOpenaiProvider\":{\"id\":\"x\",\"name\":\"n\",\"baseUrl\":\"b\",\"apiKey\":\"k\"}}";
    let (migrated, changed) = load_config_text(text);
    assert!(changed);
    // The migrated document, persisted and loaded again, migrates no further.
    let again = render_config(&migrated);
    let (second, changed_again) = load_config_text(&again);
    assert!(!changed_again);
    assert_eq!(second, migrated);
}

#[test]
fn deprecated_field_is_dropped_when_list_already_populated() {
    let mut c = sample_config();
    c.amp_openai_provider = Some(AmpOpenAIProvider {
        id: String::from("dep"),
        name: String::from("dep"),
        base_url: String::from("b"),
        api_key: String::from("k"),
        models: vec![],
    });
    let changed = migrate_config(&mut c, String::from("fresh-id-000000000000000000000000000"));
    assert!(changed);
    assert!(c.amp_openai_provider.is_none());
    // The populated list wins; the deprecated value is not appended.
    assert_eq!(c.amp_openai_providers.len(), 1);
    assert_eq!(c.amp_openai_providers[0].id, "p-1");
}

#[test]
fn duplicate_is_deep_and_equal() {
    let c = sample_config();
    let mut d = duplicate_config(&c);
    assert_eq!(d, c);
    d.port = 1;
    d.claude_api_keys.clear();
    assert_eq!(c.port, 9000);
    assert_eq!(c.claude_api_keys.len(), 1);
}

#[test]
fn parser_rejects_trailing_garbage_and_floats() {
    assert!(parse_json("{\"a\":1} extra").is_none());
    assert!(parse_json("{\"a\":1.5}").is_none());
    assert!(parse_json("[1,2,]").is_none());
    assert!(parse_json("\"unterminated").is_none());
}

#[test]
fn parser_reads_escapes_and_nesting() {
    let j = parse_json("{\"a\\n\":[true,false,null,-12,\"x\\u0041\"]}").expect("parses");
    match &j {
        Json::Obj(entries) => {
            assert_eq!(entries.len(), 1);
            assert_eq!(entries[0].0, "a\n");
            match &entries[0].1 {
                Json::Arr(items) => {
                    assert_eq!(items.len(), 5);
                    assert!(matches!(items[0], Json::Bool(true)));
                    assert!(matches!(items[2], Json::Null));
                    assert!(matches!(items[3], Json::Int(-12)));
                    match &items[4] {
                        Json::Str(s) => assert_eq!(s, "xA"),
                        _ => panic!("expected a string"),
                    }
                },
                _ => panic!("expected an array"),
            }
        },
        _ => panic!("expected an object"),
    }
}

#[test]
fn escaped_strings_round_trip() {
    let c = {
        let mut c = AppConfig::default();
        c.proxy_url = String::from("line\nbreak \"quoted\" back\\slash \t tab \u{1} ctl");
        c
    };
    let text = render_config(&c);
    let (back, _) = load_config_text(&text);
    assert_eq!(back.proxy_url, c.proxy_url);
}

#[test]
fn config_paths_join_the_directory() {
    assert_eq!(get_config_path("/home/u/.config/proxypal"), "/home/u/.config/proxypal/config.json");
    assert_eq!(get_auth_path("/tmp/x"), "/tmp/x/auth.json");
    assert_eq!(get_history_path("/tmp/x"), "/tmp/x/history.json");
}
