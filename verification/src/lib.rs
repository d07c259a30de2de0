use vstd::prelude::*;

pub mod browser;
pub mod error;
pub mod json;
pub mod models;
pub mod pipeline;
pub mod text;

verus! {

/// Represents the desired output format.
///
/// Note: This is currently not used but is planned for future versions.
#[derive(Debug, Clone)]
pub enum LlmWebFormat {
    /// JSON format.
    Json,
    /// YAML format.
    Yaml,
    /// Plain text format.
    Text,
}

/// The main handle for schema-constrained extraction from web pages.
///
/// It records which completion model an extraction call talks to. The
/// pipeline's decision logic lives in the `browser`, `models` and
/// `pipeline` modules; a surrounding binary performs the browser and
/// network work those decisions ask for.
pub struct LlmWeb {
    /// The name of the completion model to use (e.g. "gemini-1.5-flash").
    pub model: String,
}

impl LlmWeb {
    /// Creates a new `LlmWeb` instance for the given model name.
    pub fn new(name: &str) -> (r: Self)
        ensures
            r.model@ == name@,
    {
        LlmWeb { model: name.to_owned() }
    }
}

} // verus!
