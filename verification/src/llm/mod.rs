//! Language models: the messages of a conversation with one.

pub mod ollama;
pub mod types;

pub use types::{Completion, Message, MessageRole};
