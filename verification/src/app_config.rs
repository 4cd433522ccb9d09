//! Validated application configuration, built from the raw options.

use vstd::prelude::*;

use crate::config::Config as ModelParams;
use crate::config::ConfigView;
use crate::config::ModelProvider;
use crate::config::spec_provider_of;
use crate::error::AppError;
use crate::error::AppErrorView;
use crate::error::ErrorView;
use crate::options::colors_view;
use crate::options::Options;
use crate::util::api_url_for_provider;
use crate::util::spec_api_url_for_provider;

verus! {

/// The goal the agent pursues: which cloud's command line it assists with.
#[derive(Debug, Clone, Copy, PartialEq, Eq, Structural)]
pub enum Goal {
    /// Google cloud platform.
    Gcp,
    /// Amazon web services.
    Aws,
    /// Microsoft Azure.
    Azure,
}

/// The goal named by a tag, when the tag is one of the known ones.
pub open spec fn spec_goal_of(tag: Seq<char>) -> Option<Goal> {
    if tag == "gcp"@ {
        Some(Goal::Gcp)
    } else if tag == "aws"@ {
        Some(Goal::Aws)
    } else if tag == "azure"@ {
        Some(Goal::Azure)
    } else {
        None
    }
}

impl Goal {
    /// Parse a goal tag; any tag but the three known ones is rejected.
    pub fn try_from(val: &str) -> (r: Result<Goal, AppError>)
        ensures
            match r {
                Ok(g) => spec_goal_of(val@) == Some(g),
                Err(e) => spec_goal_of(val@) is None && e@ == AppErrorView::ConfigParseError(
                    "unknown goal"@,
                ),
            },
    {
        if crate::strutil::str_eq(val, "gcp") {
            Ok(Goal::Gcp)
        } else if crate::strutil::str_eq(val, "aws") {
            Ok(Goal::Aws)
        } else if crate::strutil::str_eq(val, "azure") {
            Ok(Goal::Azure)
        } else {
            Err(AppError::ConfigParseError("unknown goal"))
        }
    }
}

/// Presentation settings: the terminal colors of each lane.
#[derive(Debug)]
pub struct Settings {
    /// User message colors.
    pub user_color: (Option<[u8; 3]>, Option<[u8; 3]>),
    /// Agent message colors.
    pub apprentice_color: (Option<[u8; 3]>, Option<[u8; 3]>),
    /// Tool output colors.
    pub tool_color: (Option<[u8; 3]>, Option<[u8; 3]>),
}

/// The mathematical content of [`Settings`].
#[verifier::ext_equal]
pub struct SettingsView {
    /// User message colors.
    pub user_color: (Option<Seq<u8>>, Option<Seq<u8>>),
    /// Agent message colors.
    pub apprentice_color: (Option<Seq<u8>>, Option<Seq<u8>>),
    /// Tool output colors.
    pub tool_color: (Option<Seq<u8>>, Option<Seq<u8>>),
}

impl View for Settings {
    type V = SettingsView;

    open spec fn view(&self) -> SettingsView {
        SettingsView {
            user_color: colors_view(self.user_color),
            apprentice_color: colors_view(self.apprentice_color),
            tool_color: colors_view(self.tool_color),
        }
    }
}

/// The validated application configuration.
#[derive(Debug)]
pub struct Config {
    /// The goal the agent pursues.
    pub goal: Goal,
    /// The chat configuration.
    pub model_params: ModelParams,
    /// A user message given out-of-band, making the first turn.
    pub message: Option<String>,
    /// Presentation settings.
    pub settings: Settings,
    /// Custom instructions to add to the system prompt.
    pub prompt: Option<String>,
}

/// The mathematical content of the application [`Config`].
#[verifier::ext_equal]
pub struct AppConfigView {
    /// The goal the agent pursues.
    pub goal: Goal,
    /// The chat configuration.
    pub model_params: ConfigView,
    /// A user message given out-of-band.
    pub message: Option<Seq<char>>,
    /// Presentation settings.
    pub settings: SettingsView,
    /// Custom instructions.
    pub prompt: Option<Seq<char>>,
}

impl View for Config {
    type V = AppConfigView;

    open spec fn view(&self) -> AppConfigView {
        AppConfigView {
            goal: self.goal,
            model_params: self.model_params@,
            message: crate::config::opt_str_view(self.message),
            settings: self.settings@,
            prompt: crate::config::opt_str_view(self.prompt),
        }
    }
}

/// What building the configuration from options yields, once the mandatory
/// options are present: the provider tag and the goal tag must parse, and a
/// missing API URL falls back to the provider's default.
pub open spec fn spec_config_of_options(o: crate::options::OptionsView) -> Result<
    AppConfigView,
    AppErrorView,
> {
    match spec_provider_of(o.model_provider->0) {
        None => Err(
            AppErrorView::LibError(ErrorView::Error("unknown provider: "@ + o.model_provider->0)),
        ),
        Some(provider) => match spec_goal_of(o.goal->0) {
            None => Err(AppErrorView::ConfigParseError("unknown goal"@)),
            Some(goal) => Ok(
                AppConfigView {
                    goal,
                    model_params: ConfigView {
                        provider,
                        name: o.model->0,
                        api_key: o.api_key->0,
                        api_url: match o.api_url {
                            Some(u) => u,
                            None => spec_api_url_for_provider(provider, o.model->0),
                        },
                        api_version: o.api_version,
                        max_tokens: o.max_tokens,
                        n: o.n,
                        temperature: o.temperature,
                        top_p: o.top_p,
                        top_k: o.top_k,
                        frequency_penalty: o.frequency_penalty,
                        presence_penalty: o.presence_penalty,
                        stop_sequence: o.stop_sequence,
                    },
                    message: o.message,
                    settings: SettingsView {
                        user_color: o.user_color,
                        apprentice_color: o.apprentice_color,
                        tool_color: o.tool_color,
                    },
                    prompt: o.prompt,
                },
            ),
        },
    }
}

impl Config {
    /// Build the validated configuration from options whose mandatory
    /// values are present.
    pub fn try_from(options: Options) -> (r: Result<Config, AppError>)
        requires
            options@.goal is Some,
            options@.model_provider is Some,
            options@.model is Some,
            options@.api_key is Some,
        ensures
            match r {
                Ok(c) => spec_config_of_options(options@) == Ok::<AppConfigView, AppErrorView>(c@),
                Err(e) => spec_config_of_options(options@) == Err::<AppConfigView, AppErrorView>(
                    e@,
                ),
            },
    {
        let model = match options.model {
            Some(m) => m,
            None => {
                return Err(AppError::Unknown);
            },
        };
        let provider_tag = match options.model_provider {
            Some(p) => p,
            None => {
                return Err(AppError::Unknown);
            },
        };
        let provider = match ModelProvider::try_from(provider_tag.as_str()) {
            Ok(p) => p,
            Err(e) => {
                return Err(AppError::LibError(e));
            },
        };
        let goal_tag = match options.goal {
            Some(g) => g,
            None => {
                return Err(AppError::Unknown);
            },
        };
        let goal = match Goal::try_from(goal_tag.as_str()) {
            Ok(g) => g,
            Err(e) => {
                return Err(e);
            },
        };
        let api_key = match options.api_key {
            Some(k) => k,
            None => {
                return Err(AppError::Unknown);
            },
        };
        let api_url = match options.api_url {
            Some(u) => u,
            None => api_url_for_provider(provider, model.as_str()),
        };
        let model_params = ModelParams {
            provider,
            name: model,
            api_key,
            api_url,
            api_version: options.api_version,
            max_tokens: options.max_tokens,
            n: options.n,
            temperature: options.temperature,
            top_p: options.top_p,
            top_k: options.top_k,
            frequency_penalty: options.frequency_penalty,
            presence_penalty: options.presence_penalty,
            stop_sequence: options.stop_sequence,
        };
        let settings = Settings {
            user_color: options.user_color,
            apprentice_color: options.apprentice_color,
            tool_color: options.tool_color,
        };
        Ok(
            Config {
                goal,
                model_params,
                message: options.message,
                settings,
                prompt: options.prompt,
            },
        )
    }
}

} // verus!
