//! The persisted configuration document: one fully-defaulted record that is
//! the single source of desired state, with its schema migration.

use vstd::prelude::*;
use vstd::string::StringExecFns;

use crate::types::amp::{AmpModelMapping, AmpModelMappingV, AmpOpenAIProvider, AmpOpenAIProviderV};
use crate::types::amp::generate_uuid;
use crate::types::api_keys::{ClaudeApiKey, ClaudeApiKeyV, CodexApiKey, CodexApiKeyV, GeminiApiKey, GeminiApiKeyV};
use crate::types::copilot::{CopilotConfig, CopilotConfigV, copilot_config_default};

verus! {

/// The configuration document. Every field always holds a defined value:
/// loading never yields a partially-initialized document.
#[derive(Debug, Clone, PartialEq, Eq)]
pub struct AppConfig {
    pub port: u16,
    pub auto_start: bool,
    pub launch_at_login: bool,
    pub debug: bool,
    pub proxy_url: String,
    pub request_retry: u16,
    pub quota_switch_project: bool,
    pub quota_switch_preview_model: bool,
    pub usage_stats_enabled: bool,
    pub request_logging: bool,
    pub logging_to_file: bool,
    pub logs_max_total_size_mb: u32,
    pub config_version: u8,
    pub amp_api_key: String,
    pub amp_model_mappings: Vec<AmpModelMapping>,
    /// Deprecated single-value form of `amp_openai_providers`; kept so that
    /// old documents migrate, never written by new saves.
    pub amp_openai_provider: Option<AmpOpenAIProvider>,
    pub amp_openai_providers: Vec<AmpOpenAIProvider>,
    pub amp_routing_mode: String,
    pub copilot: CopilotConfig,
    pub force_model_mappings: bool,
    pub claude_api_keys: Vec<ClaudeApiKey>,
    pub gemini_api_keys: Vec<GeminiApiKey>,
    pub codex_api_keys: Vec<CodexApiKey>,
    pub thinking_budget_mode: String,
    pub thinking_budget_custom: u32,
    pub reasoning_effort_level: String,
    pub close_to_tray: bool,
    pub max_retry_interval: i32,
    pub proxy_api_key: String,
}

/// The mathematical model of an `AppConfig`.
#[verifier::ext_equal]
pub struct AppConfigV {
    pub port: u16,
    pub auto_start: bool,
    pub launch_at_login: bool,
    pub debug: bool,
    pub proxy_url: Seq<char>,
    pub request_retry: u16,
    pub quota_switch_project: bool,
    pub quota_switch_preview_model: bool,
    pub usage_stats_enabled: bool,
    pub request_logging: bool,
    pub logging_to_file: bool,
    pub logs_max_total_size_mb: u32,
    pub config_version: u8,
    pub amp_api_key: Seq<char>,
    pub amp_model_mappings: Seq<AmpModelMappingV>,
    pub amp_openai_provider: Option<AmpOpenAIProviderV>,
    pub amp_openai_providers: Seq<AmpOpenAIProviderV>,
    pub amp_routing_mode: Seq<char>,
    pub copilot: CopilotConfigV,
    pub force_model_mappings: bool,
    pub claude_api_keys: Seq<ClaudeApiKeyV>,
    pub gemini_api_keys: Seq<GeminiApiKeyV>,
    pub codex_api_keys: Seq<CodexApiKeyV>,
    pub thinking_budget_mode: Seq<char>,
    pub thinking_budget_custom: u32,
    pub reasoning_effort_level: Seq<char>,
    pub close_to_tray: bool,
    pub max_retry_interval: i32,
    pub proxy_api_key: Seq<char>,
}

impl DeepView for AppConfig {
    type V = AppConfigV;

    open spec fn deep_view(&self) -> AppConfigV {
        AppConfigV {
            port: self.port,
            auto_start: self.auto_start,
            launch_at_login: self.launch_at_login,
            debug: self.debug,
            proxy_url: self.proxy_url@,
            request_retry: self.request_retry,
            quota_switch_project: self.quota_switch_project,
            quota_switch_preview_model: self.quota_switch_preview_model,
            usage_stats_enabled: self.usage_stats_enabled,
            request_logging: self.request_logging,
            logging_to_file: self.logging_to_file,
            logs_max_total_size_mb: self.logs_max_total_size_mb,
            config_version: self.config_version,
            amp_api_key: self.amp_api_key@,
            amp_model_mappings: self.amp_model_mappings.deep_view(),
            amp_openai_provider: self.amp_openai_provider.deep_view(),
            amp_openai_providers: self.amp_openai_providers.deep_view(),
            amp_routing_mode: self.amp_routing_mode@,
            copilot: self.copilot.deep_view(),
            force_model_mappings: self.force_model_mappings,
            claude_api_keys: self.claude_api_keys.deep_view(),
            gemini_api_keys: self.gemini_api_keys.deep_view(),
            codex_api_keys: self.codex_api_keys.deep_view(),
            thinking_budget_mode: self.thinking_budget_mode@,
            thinking_budget_custom: self.thinking_budget_custom,
            reasoning_effort_level: self.reasoning_effort_level@,
            close_to_tray: self.close_to_tray,
            max_retry_interval: self.max_retry_interval,
            proxy_api_key: self.proxy_api_key@,
        }
    }
}

/// The fully-defaulted document: what a fresh install, an absent file, or a
/// malformed file yields.
pub open spec fn app_config_default() -> AppConfigV {
    AppConfigV {
        port: 8317,
        auto_start: true,
        launch_at_login: false,
        debug: false,
        proxy_url: Seq::empty(),
        request_retry: 0,
        quota_switch_project: false,
        quota_switch_preview_model: false,
        usage_stats_enabled: true,
        request_logging: true,
        logging_to_file: true,
        logs_max_total_size_mb: 100,
        config_version: 1,
        amp_api_key: Seq::empty(),
        amp_model_mappings: Seq::empty(),
        amp_openai_provider: None,
        amp_openai_providers: Seq::empty(),
        amp_routing_mode: "mappings"@,
        copilot: copilot_config_default(),
        force_model_mappings: false,
        claude_api_keys: Seq::empty(),
        gemini_api_keys: Seq::empty(),
        codex_api_keys: Seq::empty(),
        thinking_budget_mode: "medium"@,
        thinking_budget_custom: 16000,
        reasoning_effort_level: "medium"@,
        close_to_tray: true,
        max_retry_interval: 0,
        proxy_api_key: "proxypal-local"@,
    }
}

impl Default for AppConfig {
    fn default() -> (r: Self)
        ensures
            r.deep_view() == app_config_default(),
    {
        let r = AppConfig {
            port: 8317,
            auto_start: true,
            launch_at_login: false,
            debug: false,
            proxy_url: String::new(),
            request_retry: 0,
            quota_switch_project: false,
            quota_switch_preview_model: false,
            usage_stats_enabled: true,
            request_logging: true,
            logging_to_file: true,
            logs_max_total_size_mb: 100,
            config_version: 1,
            amp_api_key: String::new(),
            amp_model_mappings: Vec::new(),
            amp_openai_provider: None,
            amp_openai_providers: Vec::new(),
            amp_routing_mode: String::from_str("mappings"),
            copilot: CopilotConfig::default(),
            force_model_mappings: false,
            claude_api_keys: Vec::new(),
            gemini_api_keys: Vec::new(),
            codex_api_keys: Vec::new(),
            thinking_budget_mode: String::from_str("medium"),
            thinking_budget_custom: 16000,
            reasoning_effort_level: String::from_str("medium"),
            close_to_tray: true,
            max_retry_interval: 0,
            proxy_api_key: String::from_str("proxypal-local"),
        };
        proof {
            assert(r.amp_model_mappings.deep_view() =~= Seq::<AmpModelMappingV>::empty());
            assert(r.amp_openai_providers.deep_view() =~= Seq::<AmpOpenAIProviderV>::empty());
            assert(r.claude_api_keys.deep_view() =~= Seq::<ClaudeApiKeyV>::empty());
            assert(r.gemini_api_keys.deep_view() =~= Seq::<GeminiApiKeyV>::empty());
            assert(r.codex_api_keys.deep_view() =~= Seq::<CodexApiKeyV>::empty());
        }
        r
    }
}

/// What migration does to a loaded document: when only the deprecated
/// single-value provider field is populated, that value is promoted into a
/// one-element list (receiving `fresh_id` if it carries no identifier), and
/// the deprecated field is cleared. Any other document is left unchanged.
pub open spec fn spec_migrate(c: AppConfigV, fresh_id: Seq<char>) -> AppConfigV {
    match c.amp_openai_provider {
        Some(p) => {
            if c.amp_openai_providers.len() == 0 {
                let promoted = if p.id.len() == 0 {
                    AmpOpenAIProviderV { id: fresh_id, ..p }
                } else {
                    p
                };
                AppConfigV {
                    amp_openai_provider: None,
                    amp_openai_providers: seq![promoted],
                    ..c
                }
            } else {
                AppConfigV { amp_openai_provider: None, ..c }
            }
        },
        None => c,
    }
}

/// Whether a document carries nothing left to migrate.
pub open spec fn is_migrated(c: AppConfigV) -> bool {
    c.amp_openai_provider is None
}

/// Promotes the deprecated single-value provider field, as `spec_migrate`
/// says, handing the promoted entry `fresh_id` when it has none. Returns
/// whether the document changed.
pub fn migrate_config(c: &mut AppConfig, fresh_id: String) -> (changed: bool)
    ensures
        final(c).deep_view() == spec_migrate(old(c).deep_view(), fresh_id@),
        changed == (old(c).deep_view().amp_openai_provider is Some),
        is_migrated(final(c).deep_view()),
{
    let ghost fid = fresh_id@;
    let old_provider = c.amp_openai_provider.take();
    match old_provider {
        Some(p) => {
            if c.amp_openai_providers.len() == 0 {
                let promoted = if p.id.as_str().is_empty() {
                    AmpOpenAIProvider { id: fresh_id, ..p }
                } else {
                    p
                };
                let ghost pv = promoted.deep_view();
                c.amp_openai_providers.push(promoted);
                proof {
                    assert(c.amp_openai_providers.deep_view() =~~= seq![pv]);
                    assert(c.deep_view() =~~= spec_migrate(old(c).deep_view(), fid));
                }
                true
            } else {
                proof {
                    assert(c.deep_view() =~~= spec_migrate(old(c).deep_view(), fid));
                }
                true
            }
        },
        None => {
            proof {
                assert(c.deep_view() =~~= spec_migrate(old(c).deep_view(), fid));
            }
            false
        },
    }
}

/// Migration settles after one pass: running it again changes nothing.
pub proof fn lemma_migrate_idempotent(c: AppConfigV, id1: Seq<char>, id2: Seq<char>)
    ensures
        spec_migrate(spec_migrate(c, id1), id2) == spec_migrate(c, id1),
{
}

/// A document holding only the deprecated single-value provider field ends
/// with exactly one list entry, derived from that value: same name, address
/// and key, and its identifier kept unless it had none, in which case it is
/// the fresh one.
pub proof fn lemma_migrate_promotes(c: AppConfigV, fresh_id: Seq<char>)
    requires
        c.amp_openai_provider matches Some(p),
        c.amp_openai_providers.len() == 0,
    ensures
        spec_migrate(c, fresh_id).amp_openai_providers.len() == 1,
        spec_migrate(c, fresh_id).amp_openai_provider is None,
        ({
            let p = c.amp_openai_provider->0;
            let q = spec_migrate(c, fresh_id).amp_openai_providers[0];
            q.name == p.name && q.base_url == p.base_url && q.api_key == p.api_key
                && q.models == p.models && q.id == (if p.id.len() == 0 {
                fresh_id
            } else {
                p.id
            })
        }),
{
}

/// The exact text under which a document is persisted: its JSON form,
/// written deterministically.
pub fn render_config(c: &AppConfig) -> (s: String)
    ensures
        s@ == crate::json::jprint(crate::codec::enc_cfg(c.deep_view())),
{
    let j = crate::codec::config_to_json(c);
    crate::json::json_to_string(&j)
}

/// A deep copy of a document: nothing the caller does to it can reach the
/// original.
pub fn duplicate_config(c: &AppConfig) -> (r: AppConfig)
    ensures
        r.deep_view() == c.deep_view(),
{
    let j = crate::codec::config_to_json(c);
    proof {
        crate::codec::lemma_cfg_roundtrip(c.deep_view());
    }
    match crate::codec::config_from_json(&j) {
        Some(r) => r,
        None => {
            proof {
                assert(false);
            }
            AppConfig::default()
        },
    }
}

/// The document a persisted text holds, before migration: `None` when the
/// text is not well-formed JSON or does not fit the schema.
pub open spec fn spec_load(s: Seq<char>) -> Option<AppConfigV> {
    match crate::json::sp_json(s) {
        Some(j) => if crate::codec::cfg_dec_ok(j) {
            Some(crate::codec::cfg_dec(j))
        } else {
            None
        },
        None => None,
    }
}

/// The document a persisted text holds: parsed, defaulted and migrated,
/// with the promoted entry's fresh identifier drawn at random (hence only
/// its 36-character shape is fixed). Malformed or missing content degrades
/// to the fully-defaulted document rather than failing the caller, and the
/// flag then says nothing changed, so a corrupt file is never rewritten.
/// The result never carries the deprecated single-value provider field;
/// the flag says whether migration changed the document, in which case the
/// caller persists it once.
pub fn load_config_text(data: &str) -> (r: (AppConfig, bool))
    ensures
        is_migrated(r.0.deep_view()),
        spec_load(data@) matches Some(v) ==> ((exists|id: Seq<char>|
            id.len() == 36 && r.0.deep_view() == #[trigger] spec_migrate(v, id)) && r.1 == (
        v.amp_openai_provider is Some)),
        spec_load(data@) is None ==> r.0.deep_view() == app_config_default() && !r.1,
{
    match crate::json::parse_json(data) {
        Some(j) => {
            match crate::codec::config_from_json(&j) {
                Some(mut c) => {
                    let ghost v = c.deep_view();
                    let fresh = generate_uuid();
                    let ghost fid = fresh@;
                    let changed = migrate_config(&mut c, fresh);
                    proof {
                        assert(c.deep_view() == spec_migrate(v, fid));
                    }
                    (c, changed)
                },
                None => (AppConfig::default(), false),
            }
        },
        None => (AppConfig::default(), false),
    }
}

/// The name of the configuration file inside the configuration directory.
pub fn get_config_path(dir: &str) -> (r: String)
    ensures
        r@ == dir@ + "/config.json"@,
{
    String::from_str(dir).concat("/config.json")
}

/// The name of the authentication snapshot file inside the configuration
/// directory.
pub fn get_auth_path(dir: &str) -> (r: String)
    ensures
        r@ == dir@ + "/auth.json"@,
{
    String::from_str(dir).concat("/auth.json")
}

/// The name of the request history file inside the configuration directory.
pub fn get_history_path(dir: &str) -> (r: String)
    ensures
        r@ == dir@ + "/history.json"@,
{
    String::from_str(dir).concat("/history.json")
}

} // verus!
