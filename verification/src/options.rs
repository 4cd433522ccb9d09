//! Raw application options, before validation: each setting may come from
//! the command line, the environment or a configuration file, or be absent.

use vstd::prelude::*;

use crate::config::opt_int_view;
use crate::config::opt_str_view;
use crate::error::AppError;
use crate::error::AppErrorView;

verus! {

/// Application options as collected, every one optional.
#[derive(Debug)]
pub struct Options {
    /// Goal.
    pub goal: Option<String>,
    /// Model provider.
    pub model_provider: Option<String>,
    /// Model name.
    pub model: Option<String>,
    /// API key.
    pub api_key: Option<String>,
    /// Model API URL.
    pub api_url: Option<String>,
    /// Model API version.
    pub api_version: Option<String>,
    /// Maximum number of tokens that will be generated.
    pub max_tokens: Option<i64>,
    /// Number of variants to generate.
    pub n: Option<i64>,
    /// Level of randomization when choosing tokens.
    pub temperature: Option<serde_json::Number>,
    /// Nucleus sampling parameter.
    pub top_p: Option<serde_json::Number>,
    /// Top-k sampling parameter.
    pub top_k: Option<i64>,
    /// Frequency penalty.
    pub frequency_penalty: Option<serde_json::Number>,
    /// Presence penalty.
    pub presence_penalty: Option<serde_json::Number>,
    /// Sequence at which the model will stop generating.
    pub stop_sequence: Option<String>,
    /// User message given out-of-band.
    pub message: Option<String>,
    /// User message foreground and prompt background colors.
    pub user_color: (Option<[u8; 3]>, Option<[u8; 3]>),
    /// Agent message foreground and prompt background colors.
    pub apprentice_color: (Option<[u8; 3]>, Option<[u8; 3]>),
    /// Tool output foreground and prompt background colors.
    pub tool_color: (Option<[u8; 3]>, Option<[u8; 3]>),
    /// Custom instructions to add to the system prompt.
    pub prompt: Option<String>,
}

/// The view of an optional color triple pair.
pub open spec fn colors_view(c: (Option<[u8; 3]>, Option<[u8; 3]>)) -> (
    Option<Seq<u8>>,
    Option<Seq<u8>>,
) {
    (
        match c.0 {
            Some(x) => Some(x@),
            None => None,
        },
        match c.1 {
            Some(x) => Some(x@),
            None => None,
        },
    )
}

/// The mathematical content of [`Options`].
#[verifier::ext_equal]
pub struct OptionsView {
    /// Goal.
    pub goal: Option<Seq<char>>,
    /// Model provider.
    pub model_provider: Option<Seq<char>>,
    /// Model name.
    pub model: Option<Seq<char>>,
    /// API key.
    pub api_key: Option<Seq<char>>,
    /// Model API URL.
    pub api_url: Option<Seq<char>>,
    /// Model API version.
    pub api_version: Option<Seq<char>>,
    /// Maximum number of tokens.
    pub max_tokens: Option<int>,
    /// Number of variants.
    pub n: Option<int>,
    /// Temperature.
    pub temperature: Option<serde_json::Number>,
    /// Nucleus sampling parameter.
    pub top_p: Option<serde_json::Number>,
    /// Top-k sampling parameter.
    pub top_k: Option<int>,
    /// Frequency penalty.
    pub frequency_penalty: Option<serde_json::Number>,
    /// Presence penalty.
    pub presence_penalty: Option<serde_json::Number>,
    /// Stop sequence.
    pub stop_sequence: Option<Seq<char>>,
    /// User message given out-of-band.
    pub message: Option<Seq<char>>,
    /// User colors.
    pub user_color: (Option<Seq<u8>>, Option<Seq<u8>>),
    /// Agent colors.
    pub apprentice_color: (Option<Seq<u8>>, Option<Seq<u8>>),
    /// Tool colors.
    pub tool_color: (Option<Seq<u8>>, Option<Seq<u8>>),
    /// Custom instructions.
    pub prompt: Option<Seq<char>>,
}

impl View for Options {
    type V = OptionsView;

    open spec fn view(&self) -> OptionsView {
        OptionsView {
            goal: opt_str_view(self.goal),
            model_provider: opt_str_view(self.model_provider),
            model: opt_str_view(self.model),
            api_key: opt_str_view(self.api_key),
            api_url: opt_str_view(self.api_url),
            api_version: opt_str_view(self.api_version),
            max_tokens: opt_int_view(self.max_tokens),
            n: opt_int_view(self.n),
            temperature: self.temperature,
            top_p: self.top_p,
            top_k: opt_int_view(self.top_k),
            frequency_penalty: self.frequency_penalty,
            presence_penalty: self.presence_penalty,
            stop_sequence: opt_str_view(self.stop_sequence),
            message: opt_str_view(self.message),
            user_color: colors_view(self.user_color),
            apprentice_color: colors_view(self.apprentice_color),
            tool_color: colors_view(self.tool_color),
            prompt: opt_str_view(self.prompt),
        }
    }
}

/// Every option absent.
pub open spec fn spec_empty_options() -> OptionsView {
    OptionsView {
        goal: None,
        model_provider: None,
        model: None,
        api_key: None,
        api_url: None,
        api_version: None,
        max_tokens: None,
        n: None,
        temperature: None,
        top_p: None,
        top_k: None,
        frequency_penalty: None,
        presence_penalty: None,
        stop_sequence: None,
        message: None,
        user_color: (None, None),
        apprentice_color: (None, None),
        tool_color: (None, None),
        prompt: None,
    }
}

impl Options {
    /// Create unfilled options.
    pub fn new() -> (r: Options)
        ensures
            r@ == spec_empty_options(),
    {
        Options {
            goal: None,
            model_provider: None,
            model: None,
            api_key: None,
            api_url: None,
            api_version: None,
            max_tokens: None,
            n: None,
            temperature: None,
            top_p: None,
            top_k: None,
            frequency_penalty: None,
            presence_penalty: None,
            stop_sequence: None,
            message: None,
            user_color: (None, None),
            apprentice_color: (None, None),
            tool_color: (None, None),
            prompt: None,
        }
    }
}

/// Which complaint, if any, the mandatory-option check raises: the goal,
/// the model, the provider and the API key must be present, and only one
/// variant per call is supported.
pub open spec fn spec_validate_options(o: OptionsView) -> Option<AppErrorView> {
    if o.goal is None {
        Some(AppErrorView::MissingArgError("goal is not specified."@))
    } else if o.model is None {
        Some(AppErrorView::MissingArgError("inference model is not specified."@))
    } else if o.model_provider is None {
        Some(AppErrorView::MissingArgError("model provider is not specified."@))
    } else if o.api_key is None {
        Some(AppErrorView::MissingArgError("API key is not specified."@))
    } else if o.n matches Some(n) && n != 1 {
        Some(AppErrorView::InvalidArgError("Currently only n=1 is uspported."@))
    } else {
        None
    }
}

/// Check that every mandatory option is present and the variant count, if
/// given, is one.
pub fn validate_mandatory_options(options: &Options) -> (r: Result<(), AppError>)
    ensures
        match r {
            Ok(u) => spec_validate_options(options@) is None,
            Err(e) => spec_validate_options(options@) == Some(e@),
        },
{
    if options.goal.is_none() {
        return Err(AppError::MissingArgError("goal is not specified."));
    }
    if options.model.is_none() {
        return Err(AppError::MissingArgError("inference model is not specified."));
    }
    if options.model_provider.is_none() {
        return Err(AppError::MissingArgError("model provider is not specified."));
    }
    if options.api_key.is_none() {
        return Err(AppError::MissingArgError("API key is not specified."));
    }
    match options.n {
        Some(n) => {
            if n != 1 {
                return Err(AppError::InvalidArgError("Currently only n=1 is uspported."));
            }
        },
        None => {},
    }
    Ok(())
}

} // verus!
