//! A library for building terminal agent applications that converse with an
//! LLM backend over one of several provider wire protocols, expose tools the
//! model may call, and gate command execution behind human confirmation.
//!
//! The provider adapters normalize a shared message model to and from each
//! vendor's JSON shapes, keep the vendor-native conversation history, and
//! surface vendor error envelopes. The agent layer classifies model
//! responses, validates tool arguments, and drives the confirmation state
//! machine for shell commands.

pub mod agent;
pub mod app_config;
mod config;
mod error;
pub mod help;
pub mod options;
pub mod prompts;
pub mod shell;
pub mod json;
pub mod llm;
pub mod request;
pub mod strutil;
pub mod toml_parser;
pub mod tools;
pub mod util;

pub use config::Config;
pub use config::ConfigView;
pub use config::ModelProvider;
pub use error::AppError;
pub use error::AppErrorView;
pub use error::Error;
pub use error::ErrorView;
