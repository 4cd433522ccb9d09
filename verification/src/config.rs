//! Chat configuration: the provider, the model, credentials, and sampling
//! parameters.

use vstd::prelude::*;

use crate::error::Error;
use crate::error::ErrorView;
use crate::strutil::str_eq;

verus! {

/// The providers a chat can be created for.
#[derive(Debug, Clone, Copy, PartialEq, Eq, Structural)]
pub enum ModelProvider {
    /// OpenAI-shaped wire protocol.
    OpenAI,
    /// Anthropic-shaped wire protocol.
    Anthropic,
    /// GCP-shaped wire protocol.
    GCP,
}

/// The provider named by a tag, when the tag is one of the known ones.
pub open spec fn spec_provider_of(tag: Seq<char>) -> Option<ModelProvider> {
    if tag == "openai"@ {
        Some(ModelProvider::OpenAI)
    } else if tag == "anthropic"@ {
        Some(ModelProvider::Anthropic)
    } else if tag == "gcp"@ {
        Some(ModelProvider::GCP)
    } else {
        None
    }
}

impl ModelProvider {
    /// Parse a provider tag; any tag but the three known ones is rejected
    /// with a message naming the tag.
    pub fn try_from(tag: &str) -> (r: Result<ModelProvider, Error>)
        ensures
            match r {
                Ok(p) => spec_provider_of(tag@) == Some(p),
                Err(e) => spec_provider_of(tag@) is None && (e@ matches ErrorView::Error(m)
                    && m == "unknown provider: "@ + tag@),
            },
    {
        if str_eq(tag, "openai") {
            Ok(ModelProvider::OpenAI)
        } else if str_eq(tag, "anthropic") {
            Ok(ModelProvider::Anthropic)
        } else if str_eq(tag, "gcp") {
            Ok(ModelProvider::GCP)
        } else {
            let mut m = "unknown provider: ".to_owned();
            m.append(tag);
            Err(Error::Error(m))
        }
    }
}

/// Model parameters for one chat.
#[derive(Debug, Clone)]
pub struct Config {
    /// The provider whose wire protocol is spoken.
    pub provider: ModelProvider,
    /// Model name.
    pub name: String,
    /// API key.
    pub api_key: String,
    /// Model API URL.
    pub api_url: String,
    /// Model API version, for providers that require one.
    pub api_version: Option<String>,
    /// Maximum number of tokens that will be generated.
    pub max_tokens: Option<i64>,
    /// Number of variants to generate.
    pub n: Option<i64>,
    /// Level of randomization when choosing tokens.
    pub temperature: Option<serde_json::Number>,
    /// Only the tokens comprising the top_p probability mass are considered.
    pub top_p: Option<serde_json::Number>,
    /// Only the k most probable tokens are considered.
    pub top_k: Option<i64>,
    /// Penalize new tokens based on their existing frequency.
    pub frequency_penalty: Option<serde_json::Number>,
    /// Penalize new tokens that already appear in the text so far.
    pub presence_penalty: Option<serde_json::Number>,
    /// Sequence at which the model will stop generating.
    pub stop_sequence: Option<String>,
}

/// The mathematical content of a [`Config`].
#[verifier::ext_equal]
pub struct ConfigView {
    /// The provider whose wire protocol is spoken.
    pub provider: ModelProvider,
    /// Model name.
    pub name: Seq<char>,
    /// API key.
    pub api_key: Seq<char>,
    /// Model API URL.
    pub api_url: Seq<char>,
    /// Model API version.
    pub api_version: Option<Seq<char>>,
    /// Maximum number of tokens that will be generated.
    pub max_tokens: Option<int>,
    /// Number of variants to generate.
    pub n: Option<int>,
    /// Level of randomization when choosing tokens.
    pub temperature: Option<serde_json::Number>,
    /// Nucleus sampling parameter.
    pub top_p: Option<serde_json::Number>,
    /// Top-k sampling parameter.
    pub top_k: Option<int>,
    /// Frequency penalty.
    pub frequency_penalty: Option<serde_json::Number>,
    /// Presence penalty.
    pub presence_penalty: Option<serde_json::Number>,
    /// Stop sequence.
    pub stop_sequence: Option<Seq<char>>,
}

/// The view of an optional string.
pub open spec fn opt_str_view(s: Option<String>) -> Option<Seq<char>> {
    match s {
        Some(x) => Some(x@),
        None => None,
    }
}

/// The view of an optional integer.
pub open spec fn opt_int_view(v: Option<i64>) -> Option<int> {
    match v {
        Some(x) => Some(x as int),
        None => None,
    }
}

impl View for Config {
    type V = ConfigView;

    open spec fn view(&self) -> ConfigView {
        ConfigView {
            provider: self.provider,
            name: self.name@,
            api_key: self.api_key@,
            api_url: self.api_url@,
            api_version: opt_str_view(self.api_version),
            max_tokens: opt_int_view(self.max_tokens),
            n: opt_int_view(self.n),
            temperature: self.temperature,
            top_p: self.top_p,
            top_k: opt_int_view(self.top_k),
            frequency_penalty: self.frequency_penalty,
            presence_penalty: self.presence_penalty,
            stop_sequence: opt_str_view(self.stop_sequence),
        }
    }
}

impl Config {
    /// A minimal configuration: provider, model name, API key and API URL,
    /// with every optional parameter absent.
    pub fn new(provider: ModelProvider, name: String, api_key: String, api_url: String) -> (r:
        Config)
        ensures
            r@ == (ConfigView {
                provider,
                name: name@,
                api_key: api_key@,
                api_url: api_url@,
                api_version: None,
                max_tokens: None,
                n: None,
                temperature: None,
                top_p: None,
                top_k: None,
                frequency_penalty: None,
                presence_penalty: None,
                stop_sequence: None,
            }),
    {
        Config {
            provider,
            name,
            api_key,
            api_url,
            api_version: None,
            max_tokens: None,
            n: None,
            temperature: None,
            top_p: None,
            top_k: None,
            frequency_penalty: None,
            presence_penalty: None,
            stop_sequence: None,
        }
    }
}

} // verus!
