//! The single entry point of the bridge: which subsystem a request goes
//! to, and what a subsystem's outcome becomes at the protocol's boundary.

use crate::errors::{ApiError, StorageFailure};
use crate::operation::Record;
use crate::paths::str_equal;
use crate::schema::Schema;
use vstd::prelude::*;

verus! {

/// The four kinds of request.
#[derive(Debug, Clone, Copy, PartialEq, Eq, Structural)]
pub enum Endpoint {
    Query,
    Mutation,
    Search,
    InvokeResolver,
}

impl Endpoint {
    /// The path that requests of this kind are posted to.
    pub open spec fn route(&self) -> Seq<char> {
        match self {
            Endpoint::Query => "/query"@,
            Endpoint::Mutation => "/mutation"@,
            Endpoint::Search => "/search"@,
            Endpoint::InvokeResolver => "/invoke-resolver"@,
        }
    }

    /// The path of the endpoint.
    pub fn path(&self) -> (path: &'static str)
        ensures
            path@ == self.route(),
    {
        match self {
            Endpoint::Query => "/query",
            Endpoint::Mutation => "/mutation",
            Endpoint::Search => "/search",
            Endpoint::InvokeResolver => "/invoke-resolver",
        }
    }
}

/// The endpoint that a path belongs to, if any.
pub open spec fn routed(path: Seq<char>) -> Option<Endpoint> {
    if path == Endpoint::Query.route() {
        Some(Endpoint::Query)
    } else if path == Endpoint::Mutation.route() {
        Some(Endpoint::Mutation)
    } else if path == Endpoint::Search.route() {
        Some(Endpoint::Search)
    } else if path == Endpoint::InvokeResolver.route() {
        Some(Endpoint::InvokeResolver)
    } else {
        None
    }
}

/// Finds the endpoint of a path.
pub fn endpoint_of(path: &str) -> (endpoint: Option<Endpoint>)
    ensures
        endpoint == routed(path@),
{
    if str_equal(path, "/query") {
        Some(Endpoint::Query)
    } else if str_equal(path, "/mutation") {
        Some(Endpoint::Mutation)
    } else if str_equal(path, "/search") {
        Some(Endpoint::Search)
    } else if str_equal(path, "/invoke-resolver") {
        Some(Endpoint::InvokeResolver)
    } else {
        None
    }
}

/// Every endpoint is found by its own path, so no two share one.
pub proof fn every_endpoint_is_routed(endpoint: Endpoint)
    ensures
        routed(endpoint.route()) == Some(endpoint),
{
    reveal_strlit("/query");
    reveal_strlit("/mutation");
    reveal_strlit("/search");
    reveal_strlit("/invoke-resolver");
    assert("/query"@.len() == 6);
    assert("/mutation"@.len() == 9);
    assert("/search"@.len() == 7);
    assert("/invoke-resolver"@.len() == 16);
}

/// What a query comes to: the rows as the store gave them, in its order;
/// or the store's failure, passed on as it came.
pub fn conclude_query(outcome: Result<Vec<Record>, StorageFailure>) -> (result: Result<Vec<Record>, ApiError>)
    ensures
        match outcome {
            Ok(rows) => result == Ok::<Vec<Record>, ApiError>(rows),
            Err(failure) => result == Err::<Vec<Record>, ApiError>(ApiError::Storage(failure)),
        },
{
    match outcome {
        Ok(rows) => Ok(rows),
        Err(failure) => Err(ApiError::Storage(failure)),
    }
}

/// What came of reading the registry for one search request.
#[derive(Debug, PartialEq)]
pub enum RegistryRead {
    /// the registry file is missing or cannot be read
    Unreadable,
    /// the registry file does not hold a registry
    Malformed,
    /// the schema that the registry holds for the entity type asked for
    Loaded(Schema),
}

/// The schema to search with, or the configuration failure that a
/// registry which cannot be used becomes.
pub fn registry_schema(read: RegistryRead) -> (result: Result<Schema, ApiError>)
    ensures
        match read {
            RegistryRead::Loaded(schema) => result == Ok::<Schema, ApiError>(schema),
            _ => result == Err::<Schema, ApiError>(ApiError::Configuration),
        },
{
    match read {
        RegistryRead::Loaded(schema) => Ok(schema),
        _ => Err(ApiError::Configuration),
    }
}

} // verus!
