//! The LLM interface: the shared message model, the provider adapters, and
//! the chat contract they implement.

pub mod anthropic;
pub mod gcp;
pub mod llmchat;
pub mod messages;
pub mod openai;
pub mod util;

pub use llmchat::get_llm_chat;
pub use llmchat::LLMChat;
pub use llmchat::ProviderChat;
pub use messages::Message;
pub use messages::MessageView;
pub use messages::Role;
pub use messages::Text;
pub use messages::ToolCall;
pub use messages::ToolParam;
pub use messages::ToolResult;
