//! Asking a person for input while a workflow runs.

pub mod console;
pub mod types;

pub use types::{HumanInputRequest, HumanInputResponse};
