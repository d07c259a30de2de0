//! The pipeline's view of the JSON library: the opaque schema document
//! type, and the parsing calls the pipeline relies on.

use vstd::prelude::*;

verus! {

/// Declares serde_json::Value, the opaque JSON document type in which the
/// caller's schema is passed through the pipeline.
#[verifier::external_type_specification]
#[verifier::external_body]
pub struct ExValue(serde_json::Value);

/// Declares serde_json::Error, the parser's failure type; the pipeline
/// only carries its message into its own failure taxonomy.
#[verifier::external_type_specification]
#[verifier::external_body]
pub struct ExJsonError(serde_json::Error);

/// Whether serde_json's parser accepts the text as one JSON document
/// (within the parser's nesting-depth limit). Acceptance depends on the
/// text alone.
pub uninterp spec fn json_parses(s: Seq<char>) -> bool;

/// Relies on serde_json::from_str with serde_json::Value as the target
/// type: it returns Ok exactly when the text is a JSON document the
/// parser accepts, since Value admits every parsed document.
#[verifier::external_body]
pub(crate) fn parse_json_value(s: &str) -> (r: Result<serde_json::Value, serde_json::Error>)
    ensures
        r is Ok <==> json_parses(s@),
{
    serde_json::from_str(s)
}

/// Relies on serde_json::from_str with the caller's target type: whether
/// a parsed document also fits the target shape is decided by the target
/// type's deserializer, so nothing is promised of the outcome here;
/// `classify_decoded` states what the pipeline does with every outcome.
#[verifier::external_body]
pub(crate) fn parse_json_typed<T: serde::de::DeserializeOwned>(s: &str) -> Result<T, serde_json::Error> {
    serde_json::from_str(s)
}

/// Relies on serde_json::Error's Display implementation for the message
/// text; nothing is promised of its content.
#[verifier::external_body]
pub(crate) fn json_error_message(e: &serde_json::Error) -> String {
    format!("{e}")
}

} // verus!
