//! A search request answered from a ranking: the page that the request
//! asks for, with the token at which the next request resumes.

use crate::cursor::{decode, encode, token_is_injective, token_of};
use crate::errors::SearchError;
use crate::pagination::{
    admits, hits_of, is_ordered, next_of, ordered, page_of, paginate, Cursor, Entry, Hit, Pagination,
};
use crate::resume::two_pages_make_one;
use crate::query::{fingerprint_of, Query};
use vstd::prelude::*;

verus! {

/// The page that a request asks for: at most `limit` records, after the
/// position that the token stands for.
#[derive(Debug, PartialEq)]
pub struct PageRequest {
    pub limit: usize,
    pub cursor: Option<String>,
}

/// A search request.
#[derive(Debug, PartialEq)]
pub struct QueryExecutionRequest {
    pub entity_type: String,
    pub query: Query,
    pub pagination: PageRequest,
}

/// Figures about a search as a whole.
#[derive(Debug, Clone, Copy, PartialEq, Eq, Structural)]
pub struct Info {
    /// the number of records that match the query
    pub total_hits: usize,
}

/// The answer to a search request.
#[derive(Debug, PartialEq)]
pub struct QueryExecutionResponse {
    pub hits: Vec<Hit>,
    pub info: Info,
    pub next_cursor: Option<String>,
}

/// The position that a token stands for, if it is one that `encode`
/// writes.
pub open spec fn read_token(token: Seq<char>) -> Option<Cursor> {
    if exists|cursor: Cursor| token_of(cursor) == token {
        Some(choose|cursor: Cursor| token_of(cursor) == token)
    } else {
        None
    }
}

/// Whether the request carries a token that stands for no position.
pub open spec fn unreadable(request: &QueryExecutionRequest) -> bool {
    request.pagination.cursor is Some && read_token(request.pagination.cursor.unwrap()@) is None
}

/// The position that the request resumes at.
pub open spec fn resume_of(request: &QueryExecutionRequest) -> Option<Cursor> {
    match request.pagination.cursor {
        Some(token) => read_token(token@),
        None => None,
    }
}

/// The token of a position, if there is a position.
pub open spec fn written(cursor: Option<Cursor>) -> Option<Seq<char>> {
    match cursor {
        Some(cursor) => Some(token_of(cursor)),
        None => None,
    }
}

/// What a token holds, if there is a token.
pub open spec fn text_of(token: Option<String>) -> Option<Seq<char>> {
    match token {
        Some(token) => Some(token@),
        None => None,
    }
}

/// Reads the position that a request resumes at.
pub fn resume_position(request: &QueryExecutionRequest) -> (result: Result<Option<Cursor>, SearchError>)
    ensures
        match result {
            Ok(resume) => !unreadable(request) && resume == resume_of(request),
            Err(error) => unreadable(request) && error == SearchError::MalformedCursor,
        },
{
    match &request.pagination.cursor {
        Some(token) => match decode(token.as_str()) {
            Some(cursor) => {
                proof {
                    let chosen = choose|other: Cursor| token_of(other) == token@;
                    token_is_injective(cursor, chosen);
                }
                Ok(Some(cursor))
            },
            None => Err(SearchError::MalformedCursor),
        },
        None => Ok(None),
    }
}

/// Answers a search request from the ranking of the records that match
/// its query, which stands in strict rank order. A token that stands for no position, and one issued for a
/// query of another fingerprint, are refused. Otherwise the answer holds
/// the first `limit` records after the position, and the token of the
/// last of them when more remain.
pub fn respond(entries: &Vec<Entry>, request: &QueryExecutionRequest) -> (result: Result<
    QueryExecutionResponse,
    SearchError,
>)
    requires
        ordered(entries@),
    ensures
        match result {
            Ok(response) => {
                &&& !unreadable(request)
                &&& admits(fingerprint_of(request.query@), resume_of(request))
                &&& response.hits@ == hits_of(
                    page_of(entries@, resume_of(request), request.pagination.limit as int),
                )
                &&& response.info.total_hits == entries@.len()
                &&& text_of(response.next_cursor) == written(
                    next_of(
                        entries@,
                        resume_of(request),
                        request.pagination.limit as int,
                        fingerprint_of(request.query@),
                    ),
                )
            },
            Err(error) => if unreadable(request) {
                error == SearchError::MalformedCursor
            } else {
                error == SearchError::CursorMismatch && !admits(
                    fingerprint_of(request.query@),
                    resume_of(request),
                )
            },
        },
{
    let cursor = match resume_position(request) {
        Ok(cursor) => cursor,
        Err(error) => {
            return Err(error);
        },
    };
    let fingerprint = request.query.fingerprint();
    let page = match paginate(entries, fingerprint, Pagination { limit: request.pagination.limit, cursor }) {
        Ok(page) => page,
        Err(error) => {
            return Err(error);
        },
    };
    let next_cursor = match &page.next_cursor {
        Some(next) => Some(encode(next)),
        None => None,
    };
    Ok(QueryExecutionResponse { hits: page.hits, info: Info { total_hits: entries.len() }, next_cursor })
}

/// Answers a search request from the records that the index found, in
/// the order in which it found them. Records that do not stand in strict
/// rank order are refused, whatever the request; records that do are
/// answered as `respond` answers them.
pub fn answer(entries: &Vec<Entry>, request: &QueryExecutionRequest) -> (result: Result<
    QueryExecutionResponse,
    SearchError,
>)
    ensures
        !ordered(entries@) ==> result == Err::<QueryExecutionResponse, SearchError>(
            SearchError::UnorderedRanking,
        ),
        ordered(entries@) ==> match result {
            Ok(response) => {
                &&& !unreadable(request)
                &&& admits(fingerprint_of(request.query@), resume_of(request))
                &&& response.hits@ == hits_of(
                    page_of(entries@, resume_of(request), request.pagination.limit as int),
                )
                &&& response.info.total_hits == entries@.len()
                &&& text_of(response.next_cursor) == written(
                    next_of(
                        entries@,
                        resume_of(request),
                        request.pagination.limit as int,
                        fingerprint_of(request.query@),
                    ),
                )
            },
            Err(error) => if unreadable(request) {
                error == SearchError::MalformedCursor
            } else {
                error == SearchError::CursorMismatch && !admits(
                    fingerprint_of(request.query@),
                    resume_of(request),
                )
            },
        },
{
    if !is_ordered(entries) {
        return Err(SearchError::UnorderedRanking);
    }
    respond(entries, request)
}

/// The token of a position is read as that position.
pub proof fn token_reads_back(cursor: Cursor)
    ensures
        read_token(token_of(cursor)) == Some(cursor),
{
    let chosen = choose|other: Cursor| token_of(other) == token_of(cursor);
    token_is_injective(chosen, cursor);
}

/// Following the token: where a first request is answered with a token,
/// a second request with the same query and limit that carries that
/// token is admitted, and the hits of the two answers, one after the
/// other, are the hits of one answer with twice the limit.
pub proof fn following_the_token(
    entries: Seq<Entry>,
    first: &QueryExecutionRequest,
    second: &QueryExecutionRequest,
)
    requires
        ordered(entries),
        first.pagination.limit > 0,
        !unreadable(first),
        second.query@ == first.query@,
        second.pagination.limit == first.pagination.limit,
        next_of(
            entries,
            resume_of(first),
            first.pagination.limit as int,
            fingerprint_of(first.query@),
        ) is Some,
        text_of(second.pagination.cursor) == written(
            next_of(
                entries,
                resume_of(first),
                first.pagination.limit as int,
                fingerprint_of(first.query@),
            ),
        ),
    ensures
        !unreadable(second),
        admits(fingerprint_of(second.query@), resume_of(second)),
        resume_of(second) == next_of(
            entries,
            resume_of(first),
            first.pagination.limit as int,
            fingerprint_of(first.query@),
        ),
        hits_of(page_of(entries, resume_of(first), first.pagination.limit as int)) + hits_of(
            page_of(entries, resume_of(second), second.pagination.limit as int),
        ) == hits_of(page_of(entries, resume_of(first), 2 * first.pagination.limit)),
{
    let limit = first.pagination.limit as int;
    let fingerprint = fingerprint_of(first.query@);
    let next = next_of(entries, resume_of(first), limit, fingerprint).unwrap();
    token_reads_back(next);
    two_pages_make_one(entries, resume_of(first), limit, fingerprint);
    let one = page_of(entries, resume_of(first), limit);
    let two = page_of(entries, Some(next), limit);
    assert(hits_of(one) + hits_of(two) =~= hits_of(one + two));
}

/// A token issued for one query is refused with a query of another
/// fingerprint: the request is readable, and not admitted.
pub proof fn foreign_token_is_refused(
    entries: Seq<Entry>,
    first: &QueryExecutionRequest,
    second: &QueryExecutionRequest,
)
    requires
        fingerprint_of(second.query@) != fingerprint_of(first.query@),
        next_of(
            entries,
            resume_of(first),
            first.pagination.limit as int,
            fingerprint_of(first.query@),
        ) is Some,
        text_of(second.pagination.cursor) == written(
            next_of(
                entries,
                resume_of(first),
                first.pagination.limit as int,
                fingerprint_of(first.query@),
            ),
        ),
    ensures
        !unreadable(second),
        !admits(fingerprint_of(second.query@), resume_of(second)),
{
    let next = next_of(
        entries,
        resume_of(first),
        first.pagination.limit as int,
        fingerprint_of(first.query@),
    ).unwrap();
    token_reads_back(next);
}

} // verus!
