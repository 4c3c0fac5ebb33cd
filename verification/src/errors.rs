//! Failures of the bridge's subsystems and the responses they become.

use crate::operation::Constraint;
use crate::paths::str_equal;
use vstd::prelude::*;

verus! {

/// A failure reported by the relational store: its extended result code,
/// where it gave one, and its message.
#[derive(Debug, PartialEq)]
pub struct StorageFailure {
    pub code: Option<String>,
    pub message: String,
}

/// The store's result code for a violated `UNIQUE` constraint.
pub open spec fn unique_code() -> Seq<char> {
    "2067"@
}

/// The store's result code for a violated primary key.
pub open spec fn primary_key_code() -> Seq<char> {
    "1555"@
}

impl StorageFailure {
    /// Whether the failure reports that a value that must be unique was
    /// already taken.
    pub open spec fn violates_uniqueness(&self) -> bool {
        match self.code {
            Some(code) => code@ == unique_code() || code@ == primary_key_code(),
            None => false,
        }
    }

    /// Tests the result code for a uniqueness violation.
    pub fn is_uniqueness_violation(&self) -> (result: bool)
        ensures
            result == self.violates_uniqueness(),
    {
        match &self.code {
            Some(code) => str_equal(code.as_str(), "2067") || str_equal(code.as_str(), "1555"),
            None => false,
        }
    }
}

/// Why a search request was refused.
#[derive(Debug, Clone, Copy, PartialEq, Eq, Structural)]
pub enum SearchError {
    /// the query holds a construct that the index cannot express
    UnsupportedQuery,
    /// the schema needs more index fields than the index can number
    UnsupportedSchema,
    /// the records that match do not stand in strict rank order
    UnorderedRanking,
    /// the cursor is not a token that this bridge issued
    MalformedCursor,
    /// the cursor was issued for another query
    CursorMismatch,
}

/// A failure of one request.
#[derive(Debug, PartialEq)]
pub enum ApiError {
    /// the store failed; the failure is passed on as it came
    Storage(StorageFailure),
    /// the statement at `index` of its batch broke the constraint it was
    /// tagged with
    Conflict { index: usize, constraint: Constraint },
    /// the registry is missing, unreadable or malformed
    Configuration,
    /// the search request was refused
    Search(SearchError),
    /// the named resolver gave no usable answer
    ResolverInvalid(String),
}

/// The class of a failure as the protocol reports it.
#[derive(Debug, Clone, Copy, PartialEq, Eq, Structural)]
pub enum ErrorClass {
    Storage,
    Conflict,
    Server,
    Search,
    Resolver,
}

/// The protocol-level form of a failure: a status code and a class, with
/// the position of the offending statement or the name of the resolver
/// where the failure has one.
#[derive(Debug, PartialEq)]
pub struct ErrorResponse {
    pub status: u16,
    pub class: ErrorClass,
    pub operation: Option<usize>,
    pub resolver: Option<String>,
}

/// Status of a request refused because of a conflict.
pub const STATUS_CONFLICT: u16 = 409;

/// Status of a request refused because it could not be understood.
pub const STATUS_BAD_REQUEST: u16 = 400;

/// Status of a request that failed inside the bridge.
pub const STATUS_INTERNAL: u16 = 500;

impl ApiError {
    /// The class that the failure is reported under.
    pub open spec fn class(&self) -> ErrorClass {
        match self {
            ApiError::Storage(_) => ErrorClass::Storage,
            ApiError::Conflict { .. } => ErrorClass::Conflict,
            ApiError::Configuration => ErrorClass::Server,
            ApiError::Search(_) => ErrorClass::Search,
            ApiError::ResolverInvalid(_) => ErrorClass::Resolver,
        }
    }

    /// The status code that the failure is reported with.
    pub open spec fn status(&self) -> u16 {
        match self {
            ApiError::Conflict { .. } => STATUS_CONFLICT,
            ApiError::Search(_) => STATUS_BAD_REQUEST,
            _ => STATUS_INTERNAL,
        }
    }

    /// Turns the failure into its protocol-level response. Nothing of the
    /// store's own wording is carried over.
    pub fn to_response(&self) -> (response: ErrorResponse)
        ensures
            response.status == self.status(),
            response.class == self.class(),
            response.operation == match self {
                ApiError::Conflict { index, .. } => Some(*index),
                _ => None,
            },
            match self {
                ApiError::ResolverInvalid(name) => response.resolver.is_some()
                    && response.resolver.unwrap()@ == name@,
                _ => response.resolver.is_none(),
            },
    {
        match self {
            ApiError::Storage(_) => ErrorResponse {
                status: STATUS_INTERNAL,
                class: ErrorClass::Storage,
                operation: None,
                resolver: None,
            },
            ApiError::Conflict { index, .. } => ErrorResponse {
                status: STATUS_CONFLICT,
                class: ErrorClass::Conflict,
                operation: Some(*index),
                resolver: None,
            },
            ApiError::Configuration => ErrorResponse {
                status: STATUS_INTERNAL,
                class: ErrorClass::Server,
                operation: None,
                resolver: None,
            },
            ApiError::Search(_) => ErrorResponse {
                status: STATUS_BAD_REQUEST,
                class: ErrorClass::Search,
                operation: None,
                resolver: None,
            },
            ApiError::ResolverInvalid(name) => ErrorResponse {
                status: STATUS_INTERNAL,
                class: ErrorClass::Resolver,
                operation: None,
                resolver: Some(name.clone()),
            },
        }
    }
}

} // verus!
