//! The chat contract and the factory that selects an adapter by provider.

use vstd::prelude::*;

use crate::config::Config;
use crate::config::ModelProvider;
use crate::error::Error;
use crate::error::ErrorView;
use crate::llm::anthropic::AnthropicChat;
use crate::llm::gcp::GcpChat;
use crate::llm::messages::Message;
use crate::llm::openai::OpenAIChat;
use crate::request::Client;
use crate::tools::tool_specs_view;
use crate::tools::ToolChoice;
use crate::tools::ToolSpec;

verus! {

/// Chat with an LLM, keeping the conversation history.
///
/// The contract common to every provider adapter. What each adapter
/// promises of its payloads and its response handling is stated on the
/// adapter's own methods; a caller that goes through this trait gets the
/// shared shape alone.
pub trait LLMChat {
    /// Add the input messages to the history, call the model, and return
    /// the normalized response messages.
    fn get_inference(&mut self, messages: &Vec<Message>, tools: ToolChoice) -> Result<
        Vec<Message>,
        Error,
    >;

    /// Clear the chat history.
    fn clear_history(&mut self);

    /// Update the system prompt.
    fn set_system_prompt(&mut self, prompt: String);
}

impl<C: Client> LLMChat for OpenAIChat<C> {
    fn get_inference(&mut self, messages: &Vec<Message>, tools: ToolChoice) -> Result<
        Vec<Message>,
        Error,
    > {
        OpenAIChat::<C>::get_inference(self, messages, tools)
    }

    fn clear_history(&mut self) {
        OpenAIChat::<C>::clear_history(self)
    }

    fn set_system_prompt(&mut self, prompt: String) {
        OpenAIChat::<C>::set_system_prompt(self, prompt)
    }
}

impl<C: Client> LLMChat for AnthropicChat<C> {
    fn get_inference(&mut self, messages: &Vec<Message>, tools: ToolChoice) -> Result<
        Vec<Message>,
        Error,
    > {
        AnthropicChat::<C>::get_inference(self, messages, tools)
    }

    fn clear_history(&mut self) {
        AnthropicChat::<C>::clear_history(self)
    }

    fn set_system_prompt(&mut self, prompt: String) {
        AnthropicChat::<C>::set_system_prompt(self, prompt)
    }
}

impl<C: Client> LLMChat for GcpChat<C> {
    fn get_inference(&mut self, messages: &Vec<Message>, tools: ToolChoice) -> Result<
        Vec<Message>,
        Error,
    > {
        GcpChat::<C>::get_inference(self, messages, tools)
    }

    fn clear_history(&mut self) {
        GcpChat::<C>::clear_history(self)
    }

    fn set_system_prompt(&mut self, prompt: String) {
        GcpChat::<C>::set_system_prompt(self, prompt)
    }
}

/// One chat, whichever provider it speaks to: the closed set of adapters
/// behind the shared contract.
pub enum ProviderChat<C: Client> {
    /// An OpenAI-shaped chat.
    OpenAI(OpenAIChat<C>),
    /// An Anthropic-shaped chat.
    Anthropic(AnthropicChat<C>),
    /// A GCP-shaped chat.
    Gcp(GcpChat<C>),
}

impl<C: Client> LLMChat for ProviderChat<C> {
    fn get_inference(&mut self, messages: &Vec<Message>, tools: ToolChoice) -> Result<
        Vec<Message>,
        Error,
    > {
        match self {
            ProviderChat::OpenAI(chat) => chat.get_inference(messages, tools),
            ProviderChat::Anthropic(chat) => chat.get_inference(messages, tools),
            ProviderChat::Gcp(chat) => chat.get_inference(messages, tools),
        }
    }

    fn clear_history(&mut self) {
        match self {
            ProviderChat::OpenAI(chat) => chat.clear_history(),
            ProviderChat::Anthropic(chat) => chat.clear_history(),
            ProviderChat::Gcp(chat) => chat.clear_history(),
        }
    }

    fn set_system_prompt(&mut self, prompt: String) {
        match self {
            ProviderChat::OpenAI(chat) => chat.set_system_prompt(prompt),
            ProviderChat::Anthropic(chat) => chat.set_system_prompt(prompt),
            ProviderChat::Gcp(chat) => chat.set_system_prompt(prompt),
        }
    }
}

/// Create the chat matching the configured provider, with an empty history
/// and an empty system prompt. Only an Anthropic-shaped configuration can
/// be rejected: it requires an API version and a max-token limit.
pub fn get_llm_chat<C: Client>(config: Config, client: C, tools: Vec<ToolSpec>) -> (r: Result<
    ProviderChat<C>,
    Error,
>)
    ensures
        match r {
            Ok(chat) => match chat {
                ProviderChat::OpenAI(c) => {
                    &&& config@.provider == ModelProvider::OpenAI
                    &&& c.spec_system_prompt() == Seq::<char>::empty()
                    &&& c.spec_history() == Seq::<crate::json::JsonView>::empty()
                    &&& c.spec_config() == config@
                    &&& c.spec_tools() == tool_specs_view(tools@)
                    &&& c.spec_client() == client
                },
                ProviderChat::Anthropic(c) => {
                    &&& config@.provider == ModelProvider::Anthropic
                    &&& c.spec_system_prompt() == Seq::<char>::empty()
                    &&& c.spec_history() == Seq::<crate::json::JsonView>::empty()
                    &&& c.spec_config() == config@
                    &&& c.spec_tools() == tool_specs_view(tools@)
                    &&& c.spec_client() == client
                },
                ProviderChat::Gcp(c) => {
                    &&& config@.provider == ModelProvider::GCP
                    &&& c.spec_system_prompt() == Seq::<char>::empty()
                    &&& c.spec_history() == Seq::<crate::json::JsonView>::empty()
                    &&& c.spec_config() == config@
                    &&& c.spec_tools() == tool_specs_view(tools@)
                    &&& c.spec_client() == client
                },
            },
            Err(e) => {
                &&& config@.provider == ModelProvider::Anthropic
                &&& (config@.api_version is None || config@.max_tokens is None)
                &&& e@ == (if config@.api_version is None {
                    ErrorView::MissingArgError("api-version is mandatory for anthropic."@)
                } else {
                    ErrorView::MissingArgError("max-tokens is mandatory for anthropic."@)
                })
            },
        },
{
    match config.provider {
        ModelProvider::OpenAI => Ok(ProviderChat::OpenAI(OpenAIChat::new(config, client, tools))),
        ModelProvider::Anthropic => match AnthropicChat::new(config, client, tools) {
            Ok(chat) => Ok(ProviderChat::Anthropic(chat)),
            Err(e) => Err(e),
        },
        ModelProvider::GCP => match GcpChat::new(config, client, tools) {
            Ok(chat) => Ok(ProviderChat::Gcp(chat)),
            Err(e) => Err(e),
        },
    }
}

} // verus!
