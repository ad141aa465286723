//! Resources: content that gives a language model context, listed and read
//! through providers, addressed by URI, with templates and subscriptions.

pub mod error;
pub mod utils;

pub use error::ResourceError;
pub mod templates;
pub use templates::{ResourceTemplate, TemplateParameter};
pub mod models;
pub use models::{BinaryContent, Resource, ResourceContents, TextContent};
pub mod provider;
pub use provider::FileSystemProvider;
pub mod handler;
pub use handler::{ResourcesCapabilities, ResourcesHandler};

use vstd::prelude::*;

verus! {

/// Sets up the resources system; there is nothing that can fail.
pub fn initialize() -> (r: Result<(), ResourceError>)
    ensures
        r is Ok,
{
    Ok(())
}

} // verus!
