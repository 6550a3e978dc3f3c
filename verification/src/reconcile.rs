//! Reconciliation: given an accepted configuration change, which supervised
//! processes must restart. The decision is a function of the two documents
//! alone, so the same pair always yields the same answer.

use vstd::prelude::*;

use crate::codec::{enc_claudes, enc_codexes, enc_copilot, enc_geminis, enc_providers, enc_rules};
use crate::config::{AppConfig, AppConfigV};
use crate::json::json_eq;
use crate::strutil::str_eq;

verus! {

/// Whether a change between two documents touches what the primary proxy
/// process reads: its port, upstream proxy, retry policy, logging, routing
/// tables and credential sets. Fields only the window reads (tray and
/// start-up behaviour, usage statistics, quota switches) do not.
pub open spec fn primary_affected(o: AppConfigV, n: AppConfigV) -> bool {
    ||| o.port != n.port
    ||| o.debug != n.debug
    ||| o.proxy_url != n.proxy_url
    ||| o.request_retry != n.request_retry
    ||| o.request_logging != n.request_logging
    ||| o.logging_to_file != n.logging_to_file
    ||| o.logs_max_total_size_mb != n.logs_max_total_size_mb
    ||| o.amp_api_key != n.amp_api_key
    ||| o.amp_model_mappings != n.amp_model_mappings
    ||| o.amp_openai_providers != n.amp_openai_providers
    ||| o.amp_routing_mode != n.amp_routing_mode
    ||| o.force_model_mappings != n.force_model_mappings
    ||| o.claude_api_keys != n.claude_api_keys
    ||| o.gemini_api_keys != n.gemini_api_keys
    ||| o.codex_api_keys != n.codex_api_keys
    ||| o.thinking_budget_mode != n.thinking_budget_mode
    ||| o.thinking_budget_custom != n.thinking_budget_custom
    ||| o.reasoning_effort_level != n.reasoning_effort_level
    ||| o.max_retry_interval != n.max_retry_interval
    ||| o.proxy_api_key != n.proxy_api_key
}

/// Whether a change touches what the bridge process reads: its own
/// configuration block.
pub open spec fn secondary_affected(o: AppConfigV, n: AppConfigV) -> bool {
    o.copilot != n.copilot
}

proof fn lemma_enc_rules_injective(a: Seq<crate::types::amp::AmpModelMappingV>, b: Seq<crate::types::amp::AmpModelMappingV>)
    ensures
        (enc_rules(a) == enc_rules(b)) == (a == b),
{
    if enc_rules(a) == enc_rules(b) {
        crate::codec::lemma_rules_roundtrip(a);
        crate::codec::lemma_rules_roundtrip(b);
    }
}

proof fn lemma_enc_providers_injective(
    a: Seq<crate::types::amp::AmpOpenAIProviderV>,
    b: Seq<crate::types::amp::AmpOpenAIProviderV>,
)
    ensures
        (enc_providers(a) == enc_providers(b)) == (a == b),
{
    if enc_providers(a) == enc_providers(b) {
        crate::codec::lemma_providers_roundtrip(a);
        crate::codec::lemma_providers_roundtrip(b);
    }
}

proof fn lemma_enc_claudes_injective(
    a: Seq<crate::types::api_keys::ClaudeApiKeyV>,
    b: Seq<crate::types::api_keys::ClaudeApiKeyV>,
)
    ensures
        (enc_claudes(a) == enc_claudes(b)) == (a == b),
{
    if enc_claudes(a) == enc_claudes(b) {
        crate::codec::lemma_claudes_roundtrip(a);
        crate::codec::lemma_claudes_roundtrip(b);
    }
}

proof fn lemma_enc_geminis_injective(
    a: Seq<crate::types::api_keys::GeminiApiKeyV>,
    b: Seq<crate::types::api_keys::GeminiApiKeyV>,
)
    ensures
        (enc_geminis(a) == enc_geminis(b)) == (a == b),
{
    if enc_geminis(a) == enc_geminis(b) {
        crate::codec::lemma_geminis_roundtrip(a);
        crate::codec::lemma_geminis_roundtrip(b);
    }
}

proof fn lemma_enc_codexes_injective(
    a: Seq<crate::types::api_keys::CodexApiKeyV>,
    b: Seq<crate::types::api_keys::CodexApiKeyV>,
)
    ensures
        (enc_codexes(a) == enc_codexes(b)) == (a == b),
{
    if enc_codexes(a) == enc_codexes(b) {
        crate::codec::lemma_codexes_roundtrip(a);
        crate::codec::lemma_codexes_roundtrip(b);
    }
}

proof fn lemma_enc_copilot_injective(
    a: crate::types::copilot::CopilotConfigV,
    b: crate::types::copilot::CopilotConfigV,
)
    ensures
        (enc_copilot(a) == enc_copilot(b)) == (a == b),
{
    if enc_copilot(a) == enc_copilot(b) {
        crate::codec::lemma_copilot_roundtrip(a);
        crate::codec::lemma_copilot_roundtrip(b);
    }
}

/// The overall answer of an apply step once its restarts have been tried.
/// The configuration is durable by this point, so a failed restart is
/// reported as a partial failure naming the process whose restart must be
/// retried — never as a lost save, and the caller need not resubmit the
/// document.
pub fn apply_outcome(
    primary_error: Option<String>,
    secondary_error: Option<String>,
) -> (r: Result<(), crate::supervisor::ControlError>)
    ensures
        r is Ok <==> (primary_error is None && secondary_error is None),
        primary_error matches Some(m) ==> r == Err::<(), crate::supervisor::ControlError>(
            crate::supervisor::ControlError::ReconciliationPartial(
                crate::supervisor::ProcessKind::Primary,
                m,
            ),
        ),
        secondary_error matches Some(m) ==> (primary_error is None ==> r == Err::<
            (),
            crate::supervisor::ControlError,
        >(
            crate::supervisor::ControlError::ReconciliationPartial(
                crate::supervisor::ProcessKind::Secondary,
                m,
            ),
        )),
{
    match primary_error {
        Some(m) => Err(
            crate::supervisor::ControlError::ReconciliationPartial(
                crate::supervisor::ProcessKind::Primary,
                m,
            ),
        ),
        None => {
            match secondary_error {
                Some(m) => Err(
                    crate::supervisor::ControlError::ReconciliationPartial(
                        crate::supervisor::ProcessKind::Secondary,
                        m,
                    ),
                ),
                None => Ok(()),
            }
        },
    }
}

/// Which processes a configuration change touches: the primary proxy, the
/// bridge, or neither. The same pair of documents always yields the same
/// answer.
pub fn affected_processes(o: &AppConfig, n: &AppConfig) -> (r: (bool, bool))
    ensures
        r.0 == primary_affected(o.deep_view(), n.deep_view()),
        r.1 == secondary_affected(o.deep_view(), n.deep_view()),
{
    proof {
        lemma_enc_rules_injective(o.deep_view().amp_model_mappings, n.deep_view().amp_model_mappings);
        lemma_enc_providers_injective(
            o.deep_view().amp_openai_providers,
            n.deep_view().amp_openai_providers,
        );
        lemma_enc_claudes_injective(o.deep_view().claude_api_keys, n.deep_view().claude_api_keys);
        lemma_enc_geminis_injective(o.deep_view().gemini_api_keys, n.deep_view().gemini_api_keys);
        lemma_enc_codexes_injective(o.deep_view().codex_api_keys, n.deep_view().codex_api_keys);
        lemma_enc_copilot_injective(o.deep_view().copilot, n.deep_view().copilot);
    }
    let primary = o.port != n.port || o.debug != n.debug || !str_eq(
        o.proxy_url.as_str(),
        n.proxy_url.as_str(),
    ) || o.request_retry != n.request_retry || o.request_logging != n.request_logging
        || o.logging_to_file != n.logging_to_file || o.logs_max_total_size_mb
        != n.logs_max_total_size_mb || !str_eq(o.amp_api_key.as_str(), n.amp_api_key.as_str())
        || !json_eq(&crate::codec::rules_to_json(&o.amp_model_mappings), &crate::codec::rules_to_json(&n.amp_model_mappings))
        || !json_eq(
        &crate::codec::providers_to_json(&o.amp_openai_providers),
        &crate::codec::providers_to_json(&n.amp_openai_providers),
    ) || !str_eq(o.amp_routing_mode.as_str(), n.amp_routing_mode.as_str())
        || o.force_model_mappings != n.force_model_mappings || !json_eq(
        &crate::codec::claudes_to_json(&o.claude_api_keys),
        &crate::codec::claudes_to_json(&n.claude_api_keys),
    ) || !json_eq(
        &crate::codec::geminis_to_json(&o.gemini_api_keys),
        &crate::codec::geminis_to_json(&n.gemini_api_keys),
    ) || !json_eq(&crate::codec::codexes_to_json(&o.codex_api_keys), &crate::codec::codexes_to_json(&n.codex_api_keys))
        || !str_eq(o.thinking_budget_mode.as_str(), n.thinking_budget_mode.as_str())
        || o.thinking_budget_custom != n.thinking_budget_custom || !str_eq(
        o.reasoning_effort_level.as_str(),
        n.reasoning_effort_level.as_str(),
    ) || o.max_retry_interval != n.max_retry_interval
        || !str_eq(o.proxy_api_key.as_str(), n.proxy_api_key.as_str());
    let secondary = !json_eq(
        &crate::codec::copilot_to_json(&o.copilot),
        &crate::codec::copilot_to_json(&n.copilot),
    );
    (primary, secondary)
}

} // verus!
