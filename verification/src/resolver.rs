//! What an invocation of a custom resolver comes to, given what the
//! worker that hosts the resolver did.

use crate::errors::ApiError;
use vstd::prelude::*;

verus! {

/// A JSON value of `serde_json`. The bridge carries such values through
/// and never looks inside.
#[verifier::external_type_specification]
#[verifier::external_body]
pub struct ExJsonValue(serde_json::Value);

/// A call of a resolver: its name and the payload to hand to it.
#[derive(Debug, PartialEq)]
pub struct ResolverInvocation {
    pub resolver_name: String,
    pub payload: serde_json::Value,
}

/// What the worker did with an invocation.
#[derive(Debug, PartialEq)]
pub enum WorkerOutcome {
    /// it answered, with this body
    Responded(String),
    /// it gave no answer in the time that the caller allowed
    TimedOut,
    /// it went away, or knows no resolver of that name
    Unavailable,
}

/// What an answer of the worker was read as.
#[derive(Debug, PartialEq)]
pub enum Reading {
    /// the worker answered with this JSON value
    Value(serde_json::Value),
    /// the worker answered with something that is no JSON value
    Malformed,
    /// the worker gave no answer
    Missing,
}

/// The JSON value that a text is read as, if the text is one JSON value.
pub uninterp spec fn json_read(text: Seq<char>) -> Option<serde_json::Value>;

/// Reads text as one JSON value with `serde_json::from_str`; text that
/// is no JSON value gives `None`. The contract gives what is read a
/// name; it claims only that what is read depends on the text alone.
#[verifier::external_body]
fn parse_json(text: &str) -> (value: Option<serde_json::Value>)
    ensures
        value == json_read(text@),
{
    serde_json::from_str(text).ok()
}

/// The failure that names the resolver of an invocation.
pub open spec fn names_resolver(error: ApiError, invocation: &ResolverInvocation) -> bool {
    error is ResolverInvalid && error->ResolverInvalid_0@ == invocation.resolver_name@
}

/// Settles an invocation from what the worker's answer was read as: the
/// value that was read is the result, as it is; without one the
/// invocation fails, and the failure names the resolver.
pub fn conclude(invocation: &ResolverInvocation, reading: Reading) -> (result: Result<
    serde_json::Value,
    ApiError,
>)
    ensures
        match reading {
            Reading::Value(value) => result == Ok::<serde_json::Value, ApiError>(value),
            _ => result is Err && names_resolver(result->Err_0, invocation),
        },
{
    match reading {
        Reading::Value(value) => Ok(value),
        _ => Err(ApiError::ResolverInvalid(invocation.resolver_name.clone())),
    }
}

/// Settles an invocation from what the worker did. A body that is one
/// JSON value is the result, exactly as it was read. A worker that gave
/// no answer, or a body that is no JSON value, fails the invocation, and
/// the failure names the resolver. Nothing is tried again.
pub fn settle(invocation: &ResolverInvocation, outcome: WorkerOutcome) -> (result: Result<
    serde_json::Value,
    ApiError,
>)
    ensures
        match outcome {
            WorkerOutcome::Responded(body) => match json_read(body@) {
                Some(value) => result == Ok::<serde_json::Value, ApiError>(value),
                None => result is Err && names_resolver(result->Err_0, invocation),
            },
            _ => result is Err && names_resolver(result->Err_0, invocation),
        },
{
    let reading = match outcome {
        WorkerOutcome::Responded(body) => match parse_json(body.as_str()) {
            Some(value) => Reading::Value(value),
            None => Reading::Malformed,
        },
        _ => Reading::Missing,
    };
    conclude(invocation, reading)
}

} // verus!
