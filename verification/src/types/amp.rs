//! Model-name routing for the Amp integration: mapping rules and
//! custom upstream providers.

use vstd::prelude::*;

verus! {

/// One model-name rewrite rule.
#[derive(Debug, Clone, PartialEq, Eq)]
pub struct AmpModelMapping {
    pub from: String,
    pub to: String,
    pub enabled: bool,
}

/// The mathematical model of an `AmpModelMapping`.
#[verifier::ext_equal]
pub struct AmpModelMappingV {
    pub from: Seq<char>,
    pub to: Seq<char>,
    pub enabled: bool,
}

impl DeepView for AmpModelMapping {
    type V = AmpModelMappingV;

    open spec fn deep_view(&self) -> AmpModelMappingV {
        AmpModelMappingV { from: self.from@, to: self.to@, enabled: self.enabled }
    }
}

/// One model offered by a custom provider.
#[derive(Debug, Clone, PartialEq, Eq)]
pub struct AmpOpenAIModel {
    pub name: String,
    pub alias: String,
}

/// The mathematical model of an `AmpOpenAIModel`.
#[verifier::ext_equal]
pub struct AmpOpenAIModelV {
    pub name: Seq<char>,
    pub alias: Seq<char>,
}

impl DeepView for AmpOpenAIModel {
    type V = AmpOpenAIModelV;

    open spec fn deep_view(&self) -> AmpOpenAIModelV {
        AmpOpenAIModelV { name: self.name@, alias: self.alias@ }
    }
}

/// A custom upstream provider with its credential and model list.
#[derive(Debug, Clone, PartialEq, Eq)]
pub struct AmpOpenAIProvider {
    pub id: String,
    pub name: String,
    pub base_url: String,
    pub api_key: String,
    pub models: Vec<AmpOpenAIModel>,
}

/// The mathematical model of an `AmpOpenAIProvider`.
#[verifier::ext_equal]
pub struct AmpOpenAIProviderV {
    pub id: Seq<char>,
    pub name: Seq<char>,
    pub base_url: Seq<char>,
    pub api_key: Seq<char>,
    pub models: Seq<AmpOpenAIModelV>,
}

impl DeepView for AmpOpenAIProvider {
    type V = AmpOpenAIProviderV;

    open spec fn deep_view(&self) -> AmpOpenAIProviderV {
        AmpOpenAIProviderV {
            id: self.id@,
            name: self.name@,
            base_url: self.base_url@,
            api_key: self.api_key@,
            models: self.models.deep_view(),
        }
    }
}

/// A fresh identifier for a provider entry.
///
/// Relies on `uuid::Uuid::new_v4` and its `Display` impl: a version-4 UUID
/// rendered in the canonical hyphenated form, which is always 36 characters.
/// The value itself is random, so nothing more is assumed of it.
#[verifier::external_body]
pub(crate) fn generate_uuid() -> (r: String)
    ensures
        r@.len() == 36,
{
    uuid::Uuid::new_v4().to_string()
}

} // verus!
