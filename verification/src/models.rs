//! The completion side of the pipeline: the fixed extraction instruction,
//! the schema-constrained request built for the completion service, and
//! the decision taken on what the service returned.

use vstd::prelude::*;
use vstd::string::StringExecFns;

use crate::error::LlmWebError;
use crate::text::normalize;
use crate::text::normalize_spec;

verus! {

/// The fixed system instruction sent with every completion request.
pub const SYSTEM_PROMPT: &'static str = "You are a structured information extraction assistant. Please extract JSON from the HTML page.\nStrictly output the JSON structure as specified above. Use null for missing fields.";

/// The fixed internal label under which the caller's schema is forwarded
/// to the completion service; it is not derived from the caller's type.
pub const SCHEMA_LABEL: &'static str = "LlmWeb";

/// One schema-constrained completion request: the fixed system
/// instruction, the rendered page content verbatim as the user message,
/// and the caller's schema, forwarded unchanged under the fixed label as
/// the response-format constraint.
pub struct CompletionRequest {
    /// The fixed extraction instruction, sent as the system message.
    pub system: String,
    /// The rendered page content, sent verbatim as the user message.
    pub user: String,
    /// The fixed label naming the schema constraint.
    pub schema_label: String,
    /// The caller's schema, treated as an opaque pass-through document.
    pub schema: serde_json::Value,
}

/// Builds the two-message exchange for one completion call. The page
/// content is not truncated or summarized, and the schema is forwarded
/// exactly as the caller supplied it.
pub fn build_completion_request(page_content: &str, schema: serde_json::Value) -> (req:
    CompletionRequest)
    ensures
        req.system@ == SYSTEM_PROMPT@,
        req.user@ == page_content@,
        req.schema_label@ == SCHEMA_LABEL@,
        req.schema == schema,
{
    CompletionRequest {
        system: SYSTEM_PROMPT.to_owned(),
        user: page_content.to_owned(),
        schema_label: SCHEMA_LABEL.to_owned(),
        schema,
    }
}

/// What the completion service produced for one request, as seen by the
/// pipeline.
pub enum CompletionEvent {
    /// The response carried textual content.
    Content(String),
    /// The response carried no content at all.
    NoContent,
    /// The response carried content that could not be coerced to text.
    NoText,
    /// The service rejected the request or was unreachable; carries the
    /// message of the failure.
    Failed(String),
}

/// Decides the outcome of the completion stage: textual content is
/// normalized (incidental Markdown fences stripped) and returned; a
/// response with no usable text and a service failure each surface as a
/// distinct completion failure rather than as an empty answer.
pub fn completion_outcome(ev: CompletionEvent) -> (r: Result<String, LlmWebError>)
    ensures
        (match ev {
            CompletionEvent::Content(s) => r matches Ok(n) && n@ == normalize_spec(s@),
            CompletionEvent::NoContent => r matches Err(e) && e matches LlmWebError::ModelClient(
                m,
            ) && m@ == "No content in response"@,
            CompletionEvent::NoText => r matches Err(e) && e matches LlmWebError::ModelClient(m)
                && m@ == "Content to string error"@,
            CompletionEvent::Failed(msg) => r matches Err(e) && e matches LlmWebError::ModelClient(
                m,
            ) && m@ == msg@,
        }),
{
    match ev {
        CompletionEvent::Content(s) => Ok(normalize(s.as_str())),
        CompletionEvent::NoContent => Err(
            LlmWebError::ModelClient("No content in response".to_owned()),
        ),
        CompletionEvent::NoText => Err(
            LlmWebError::ModelClient("Content to string error".to_owned()),
        ),
        CompletionEvent::Failed(msg) => Err(LlmWebError::ModelClient(msg)),
    }
}

} // verus!
