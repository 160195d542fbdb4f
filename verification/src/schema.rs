//! Checking documents against a JSON schema.
use vstd::prelude::*;

use crate::text;

verus! {

/// What a schema says of a document.
#[derive(Debug, PartialEq, Eq)]
pub enum SchemaCheck {
    /// The document satisfies the schema.
    Accepted,
    /// The document violates the schema, for the given reason.
    Rejected(String),
    /// The schema itself cannot be used, for the given reason.
    Unusable(String),
}

/// Whether `document` satisfies the Draft 2020-12 schema whose text is `schema`, as
/// `jsonschema` decides it; `None` where the schema cannot be compiled.
pub uninterp spec fn schema_verdict(schema: Seq<char>, document: Seq<char>) -> Option<bool>;

/// The verdict that a check stands for.
pub open spec fn verdict_of(check: SchemaCheck) -> Option<bool> {
    match check {
        SchemaCheck::Accepted => Some(true),
        SchemaCheck::Rejected(_) => Some(false),
        SchemaCheck::Unusable(_) => None,
    }
}

/// Compiles `schema` with `jsonschema::draft202012::new` and checks `document` with
/// `Validator::validate`. A document that is no JSON is rejected. The verdict is a function
/// of the two texts and is named [`schema_verdict`]. Nothing is claimed of the reason that
/// comes with a rejection: which violation is reported first is left open.
#[verifier::external_body]
pub(crate) fn check_schema(schema: &str, document: &str) -> (check: SchemaCheck)
    ensures
        verdict_of(check) == schema_verdict(schema@, document@),
{
    let schema: serde_json::Value = match serde_json::from_str(schema) {
        Ok(value) => value,
        Err(error) => return SchemaCheck::Unusable(error.to_string()),
    };
    match (jsonschema::draft202012::new(&schema), serde_json::from_str(document)) {
        (Err(error), _) => SchemaCheck::Unusable(error.to_string()),
        (Ok(_), Err(error)) => SchemaCheck::Rejected(error.to_string()),
        (Ok(validator), Ok(value)) => match validator.validate(&value) {
            Ok(()) => SchemaCheck::Accepted,
            Err(error) => SchemaCheck::Rejected(error.to_string()),
        },
    }
}

/// The complaint about a document, if there is one.
pub open spec fn complaint(check: SchemaCheck) -> Result<(), Seq<char>> {
    match check {
        SchemaCheck::Accepted => Ok(()),
        SchemaCheck::Rejected(reason) => Err("protocol schema violation: "@ + reason@),
        SchemaCheck::Unusable(reason) => Err("protocol schema cannot be used: "@ + reason@),
    }
}

/// Turns a check into a complaint.
pub fn report_check(check: SchemaCheck) -> (outcome: Result<(), String>)
    ensures
        match outcome {
            Ok(()) => complaint(check) is Ok,
            Err(reason) => complaint(check) == Err::<(), _>(reason@),
        },
{
    match check {
        SchemaCheck::Accepted => Ok(()),
        SchemaCheck::Rejected(reason) => Err(
            text::glue("protocol schema violation: ", reason.as_str()),
        ),
        SchemaCheck::Unusable(reason) => Err(
            text::glue("protocol schema cannot be used: ", reason.as_str()),
        ),
    }
}

/// Holds a protocol document against the protocol schema.
pub fn validate_protocol_value(schema: &str, document: &str) -> (outcome: Result<(), String>)
    ensures
        outcome is Ok <==> schema_verdict(schema@, document@) == Some(true),
        schema_verdict(schema@, document@) == Some(false) ==> text::begins_with(
            outcome->Err_0@,
            "protocol schema violation: "@,
        ),
        schema_verdict(schema@, document@) is None ==> text::begins_with(
            outcome->Err_0@,
            "protocol schema cannot be used: "@,
        ),
{
    let check = check_schema(schema, document);
    proof {
        text::lemma_begins_with("protocol schema violation: "@, check->Rejected_0@);
        text::lemma_begins_with("protocol schema cannot be used: "@, check->Unusable_0@);
    }
    report_check(check)
}

} // verus!
