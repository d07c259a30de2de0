//! Composition of the extraction pipeline: what follows each stage, and
//! the decoding of the normalized response text into the caller's target
//! type. The stages run strictly in order and the first failure ends the
//! call; each failure keeps the kind of the stage that failed.

use vstd::prelude::*;

use crate::browser::RenderEvent;
use crate::browser::render_outcome;
use crate::browser::js_blocked_spec;
use crate::error::LlmWebError;
use crate::json::json_error_message;
use crate::json::json_parses;
use crate::json::parse_json_typed;
use crate::json::parse_json_value;
use crate::models::CompletionRequest;
use crate::models::SCHEMA_LABEL;
use crate::models::SYSTEM_PROMPT;
use crate::models::build_completion_request;

verus! {

/// What follows the rendering stage: either the completion request to
/// send next, or the final failure of the call. A rendering failure ends
/// the call at once; no completion request is ever built from it.
pub enum AfterRender {
    /// Rendering succeeded: send this request to the completion service.
    SendCompletion(CompletionRequest),
    /// Rendering failed: the call ends with this failure.
    Fail(LlmWebError),
}

/// Advances the pipeline past the rendering stage. Only rendered content
/// free of the JavaScript-blocked markers yields a completion request,
/// which carries that content verbatim together with the caller's schema;
/// a blocked page and a browser failure end the call with the distinct
/// rendering failure, and the completion stage is never reached.
pub fn advance_after_render(schema: serde_json::Value, ev: RenderEvent) -> (step: AfterRender)
    ensures
        (match ev {
            RenderEvent::Rendered(h) => if js_blocked_spec(h@) {
                step matches AfterRender::Fail(e) && e is JsBlocked
            } else {
                step matches AfterRender::SendCompletion(req) && req.system@ == SYSTEM_PROMPT@
                    && req.user@ == h@ && req.schema_label@ == SCHEMA_LABEL@ && req.schema
                    == schema
            },
            RenderEvent::Failed(m) => step matches AfterRender::Fail(e) && e
                matches LlmWebError::Browser(b) && b@ == m@,
        }),
{
    match render_outcome(ev) {
        Ok(html) => AfterRender::SendCompletion(build_completion_request(html.as_str(), schema)),
        Err(e) => AfterRender::Fail(e),
    }
}

/// Maps the outcome of the typed JSON parse into the pipeline's failure
/// taxonomy: a parsed value is handed back unchanged, and a parse failure
/// is reported as a malformed result carrying the parser's message —
/// distinct from every completion failure.
pub fn classify_decoded<T>(parsed: Result<T, serde_json::Error>) -> (r: Result<T, LlmWebError>)
    ensures
        (match parsed {
            Ok(v) => r matches Ok(w) && w == v,
            Err(_) => r matches Err(e) && e is MalformedResult,
        }),
{
    match parsed {
        Ok(v) => Ok(v),
        Err(e) => {
            let msg = json_error_message(&e);
            Err(LlmWebError::MalformedResult(msg))
        },
    }
}

/// Decodes the normalized response text into the caller's target type.
/// Text the JSON parser rejects, or parsed JSON the target shape refuses,
/// ends the call with a malformed-result failure, never with a completion
/// or rendering failure.
pub fn decode_extraction<T: serde::de::DeserializeOwned>(text: &str) -> (r: Result<T, LlmWebError>)
    ensures
        r matches Err(e) ==> e is MalformedResult,
{
    classify_decoded(parse_json_typed::<T>(text))
}

/// Parses caller-supplied schema text into a schema document. The text is
/// accepted exactly when it is valid JSON; anything else is the distinct
/// input failure of the string-schema entry point.
pub fn parse_schema_str(schema_str: &str) -> (r: Result<serde_json::Value, LlmWebError>)
    ensures
        r is Ok <==> json_parses(schema_str@),
        r matches Err(e) ==> e is InputFailure,
{
    match parse_json_value(schema_str) {
        Ok(v) => Ok(v),
        Err(e) => {
            let msg = json_error_message(&e);
            Err(LlmWebError::InputFailure(msg))
        },
    }
}

} // verus!
