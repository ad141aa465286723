//! Prompt templates: their parameters, rendering and management, and the slash
//! commands and menu options that trigger them.

pub mod interactive;
pub mod manager;
pub mod template;
pub mod types;




pub use types::{PromptCategory, PromptId, PromptParameter, PromptParameters, PromptVersion, RenderedPrompt};
pub use interactive::{MenuGroup, MenuOption, SlashCommand};
pub use template::PromptTemplate;
pub use manager::{initialize, PromptManager};
