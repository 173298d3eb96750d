//! JSON documents as the pipeline sees them: raw text paired with the
//! parsed value, plus schema compilation and validation reached through
//! trusted wrappers.  All contracts speak of the text alone.

use vstd::prelude::*;

verus! {

#[verifier::external_type_specification]
#[verifier::external_body]
pub struct ExJsonValue(serde_json::Value);

/// Whether `serde_json` parses this text as a JSON document.
pub uninterp spec fn json_wf(s: Seq<char>) -> bool;

/// Whether `jsonschema` compiles this well-formed JSON text as a schema.
pub uninterp spec fn schema_compiles(schema: Seq<char>) -> bool;

/// Whether the instance text satisfies the schema text.
pub uninterp spec fn schema_accepts(schema: Seq<char>, instance: Seq<char>) -> bool;

/// A parsed JSON document: the original text together with its parsed
/// value.  The only constructor is [`parse_json`], so `value` is always
/// the parse of `text`.
pub struct JsonDoc {
    text: String,
    value: serde_json::Value,
}

impl JsonDoc {
    /// The text this document was parsed from.
    pub closed spec fn text_view(&self) -> Seq<char> {
        self.text@
    }
}

/// Relies on `serde_json::from_str::<Value>`: parsing succeeds exactly
/// on well-formed JSON text and is a function of the text alone.
#[verifier::external_body]
pub fn parse_json(s: &str) -> (r: Result<JsonDoc, String>)
    ensures
        r is Ok <==> json_wf(s@),
        r matches Ok(d) ==> d.text_view() == s@,
{
    match serde_json::from_str::<serde_json::Value>(s) {
        Ok(value) => Ok(JsonDoc { text: s.to_string(), value }),
        Err(e) => Err(e.to_string()),
    }
}

/// Relies on `jsonschema::validator_for`: compiling a schema document
/// succeeds or fails as a function of the document alone.
#[verifier::external_body]
pub fn compile_schema_check(schema: &JsonDoc) -> (r: Result<(), String>)
    ensures
        r is Ok <==> schema_compiles(schema.text_view()),
{
    match jsonschema::validator_for(&schema.value) {
        Ok(_) => Ok(()),
        Err(e) => Err(e.to_string()),
    }
}

/// Relies on `jsonschema::validator_for` and `Validator::iter_errors`:
/// against a compilable schema, validation succeeds exactly when the
/// instance satisfies it, and the error joins every violation's
/// description with `"; "`; both are functions of the two documents
/// alone.
#[verifier::external_body]
pub fn validate_against_schema(schema: &JsonDoc, instance: &JsonDoc) -> (r: Result<(), String>)
    requires
        schema_compiles(schema.text_view()),
    ensures
        r is Ok <==> schema_accepts(schema.text_view(), instance.text_view()),
{
    match jsonschema::validator_for(&schema.value) {
        Ok(validator) => {
            let errors: Vec<String> =
                validator.iter_errors(&instance.value).map(|e| e.to_string()).collect();
            if errors.is_empty() {
                Ok(())
            } else {
                Err(errors.join("; "))
            }
        },
        Err(e) => Err(e.to_string()),
    }
}

} // verus!
