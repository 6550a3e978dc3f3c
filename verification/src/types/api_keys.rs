//! Per-provider credential entries, in the shape of the management API's
//! schema. Custom header lists keep the order in which they were written.

use vstd::prelude::*;

verus! {

/// A credential entry for the Gemini provider.
#[derive(Debug, Clone, PartialEq, Eq)]
pub struct GeminiApiKey {
    pub api_key: String,
    pub base_url: Option<String>,
    pub proxy_url: Option<String>,
    pub headers: Option<Vec<(String, String)>>,
    pub excluded_models: Option<Vec<String>>,
}

/// The mathematical model of a `GeminiApiKey`.
#[verifier::ext_equal]
pub struct GeminiApiKeyV {
    pub api_key: Seq<char>,
    pub base_url: Option<Seq<char>>,
    pub proxy_url: Option<Seq<char>>,
    pub headers: Option<Seq<(Seq<char>, Seq<char>)>>,
    pub excluded_models: Option<Seq<Seq<char>>>,
}

impl DeepView for GeminiApiKey {
    type V = GeminiApiKeyV;

    open spec fn deep_view(&self) -> GeminiApiKeyV {
        GeminiApiKeyV {
            api_key: self.api_key@,
            base_url: self.base_url.deep_view(),
            proxy_url: self.proxy_url.deep_view(),
            headers: self.headers.deep_view(),
            excluded_models: self.excluded_models.deep_view(),
        }
    }
}

/// A model name with an optional alias under which it is served.
#[derive(Debug, Clone, PartialEq, Eq)]
pub struct ModelMapping {
    pub name: String,
    pub alias: Option<String>,
}

/// The mathematical model of a `ModelMapping`.
#[verifier::ext_equal]
pub struct ModelMappingV {
    pub name: Seq<char>,
    pub alias: Option<Seq<char>>,
}

impl DeepView for ModelMapping {
    type V = ModelMappingV;

    open spec fn deep_view(&self) -> ModelMappingV {
        ModelMappingV { name: self.name@, alias: self.alias.deep_view() }
    }
}

/// A credential entry with model routing and exclusion lists.
#[derive(Debug, Clone, PartialEq, Eq)]
pub struct ClaudeApiKey {
    pub api_key: String,
    pub base_url: Option<String>,
    pub proxy_url: Option<String>,
    pub headers: Option<Vec<(String, String)>>,
    pub models: Option<Vec<ModelMapping>>,
    pub excluded_models: Option<Vec<String>>,
}

/// The mathematical model of a `ClaudeApiKey`.
#[verifier::ext_equal]
pub struct ClaudeApiKeyV {
    pub api_key: Seq<char>,
    pub base_url: Option<Seq<char>>,
    pub proxy_url: Option<Seq<char>>,
    pub headers: Option<Seq<(Seq<char>, Seq<char>)>>,
    pub models: Option<Seq<ModelMappingV>>,
    pub excluded_models: Option<Seq<Seq<char>>>,
}

impl DeepView for ClaudeApiKey {
    type V = ClaudeApiKeyV;

    open spec fn deep_view(&self) -> ClaudeApiKeyV {
        ClaudeApiKeyV {
            api_key: self.api_key@,
            base_url: self.base_url.deep_view(),
            proxy_url: self.proxy_url.deep_view(),
            headers: self.headers.deep_view(),
            models: self.models.deep_view(),
            excluded_models: self.excluded_models.deep_view(),
        }
    }
}

/// A credential entry for the Codex provider.
#[derive(Debug, Clone, PartialEq, Eq)]
pub struct CodexApiKey {
    pub api_key: String,
    pub base_url: Option<String>,
    pub proxy_url: Option<String>,
    pub headers: Option<Vec<(String, String)>>,
}

/// The mathematical model of a `CodexApiKey`.
#[verifier::ext_equal]
pub struct CodexApiKeyV {
    pub api_key: Seq<char>,
    pub base_url: Option<Seq<char>>,
    pub proxy_url: Option<Seq<char>>,
    pub headers: Option<Seq<(Seq<char>, Seq<char>)>>,
}

impl DeepView for CodexApiKey {
    type V = CodexApiKeyV;

    open spec fn deep_view(&self) -> CodexApiKeyV {
        CodexApiKeyV {
            api_key: self.api_key@,
            base_url: self.base_url.deep_view(),
            proxy_url: self.proxy_url.deep_view(),
            headers: self.headers.deep_view(),
        }
    }
}

/// One key entry of an OpenAI-compatible provider.
#[derive(Debug, Clone, PartialEq, Eq)]
pub struct OpenAICompatibleApiKeyEntry {
    pub api_key: String,
    pub proxy_url: Option<String>,
}

/// An OpenAI-compatible provider with its key entries.
#[derive(Debug, Clone, PartialEq, Eq)]
pub struct OpenAICompatibleProvider {
    pub name: String,
    pub base_url: String,
    pub api_key_entries: Vec<OpenAICompatibleApiKeyEntry>,
    pub models: Option<Vec<ModelMapping>>,
    pub headers: Option<Vec<(String, String)>>,
}

} // verus!
