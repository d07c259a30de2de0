//! The failure taxonomy of the extraction pipeline: each stage fails with
//! its own kind, so callers can tell which stage failed.

use vstd::prelude::*;
use vstd::string::StringExecFns;

verus! {

/// The main error type for the `llmweb` crate.
///
/// Every stage failure is propagated to the caller with its kind
/// preserved: a rendering failure, a completion-service failure, a
/// malformed model answer, and an invalid caller-supplied schema are all
/// distinguishable.
#[derive(Debug)]
pub enum LlmWebError {
    /// The rendering stage failed: browser launch, tab creation,
    /// navigation, or content read. Carries the message of the failure.
    Browser(String),
    /// The rendered page requires JavaScript execution that did not
    /// occur: the renderer returned a placeholder page instead of the
    /// real content.
    JsBlocked,
    /// The completion service rejected the request, was unreachable, or
    /// returned a response with no usable textual content. Carries the
    /// message of the failure.
    ModelClient(String),
    /// The fence-stripped response text could not be parsed as JSON, or
    /// the parsed JSON did not match the caller's target shape. Carries
    /// the parser's message.
    MalformedResult(String),
    /// The caller-supplied schema text was not valid JSON. Carries the
    /// parser's message.
    InputFailure(String),
}

impl LlmWebError {
    /// A human-readable description of the failure, naming its stage.
    pub fn describe(&self) -> (r: String)
        ensures
            self matches LlmWebError::Browser(m) ==> r@ == "Browser error: "@ + m@,
            self is JsBlocked ==> r@ == "Browser error: JavaScript is required but was not executed"@,
            self matches LlmWebError::ModelClient(m) ==> r@ == "Model client error: "@ + m@,
            self matches LlmWebError::MalformedResult(m) ==> r@ == "Malformed model output: "@
                + m@,
            self matches LlmWebError::InputFailure(m) ==> r@ == "Invalid schema input: "@ + m@,
    {
        match self {
            LlmWebError::Browser(m) => concat_msg("Browser error: ", m.as_str()),
            LlmWebError::JsBlocked => "Browser error: JavaScript is required but was not executed".to_owned(),
            LlmWebError::ModelClient(m) => concat_msg("Model client error: ", m.as_str()),
            LlmWebError::MalformedResult(m) => concat_msg("Malformed model output: ", m.as_str()),
            LlmWebError::InputFailure(m) => concat_msg("Invalid schema input: ", m.as_str()),
        }
    }
}

/// Joins a fixed prefix and a failure message.
fn concat_msg(prefix: &str, msg: &str) -> (r: String)
    ensures
        r@ == prefix@ + msg@,
{
    let mut r = prefix.to_owned();
    r.append(msg);
    r
}

} // verus!
