//! Structured search queries and the fingerprint that binds a cursor to
//! the query it was issued for.

use crate::errors::SearchError;
use crate::operation::{Scalar, ScalarValue};
use crate::paths::str_equal;
use vstd::prelude::*;
use vstd::string::StringSliceAdditionalSpecFns;

verus! {

/// An exact-match condition on one field.
#[derive(Debug, PartialEq)]
pub struct Filter {
    pub field: String,
    pub value: Scalar,
}

/// A full-text condition on one field.
#[derive(Debug, PartialEq)]
pub struct TextMatch {
    pub field: String,
    pub text: String,
}

/// The order in which the records that match are handed out.
#[derive(Debug, Clone, Copy, PartialEq, Eq, Structural)]
pub enum Sort {
    /// best relevance score first; among equal scores, the record that
    /// the index holds first
    Relevance,
}

/// The sort that a request names. A request that names none asks for the
/// sort by relevance; a name that is no sort makes the query unsupported.
pub fn sort_of(name: Option<&str>) -> (result: Result<Sort, SearchError>)
    ensures
        match name {
            None => result == Ok::<Sort, SearchError>(Sort::Relevance),
            Some(name) => if name@ == "relevance"@ {
                result == Ok::<Sort, SearchError>(Sort::Relevance)
            } else {
                result == Err::<Sort, SearchError>(SearchError::UnsupportedQuery)
            },
        },
{
    match name {
        None => Ok(Sort::Relevance),
        Some(name) => if str_equal(name, "relevance") {
            Ok(Sort::Relevance)
        } else {
            Err(SearchError::UnsupportedQuery)
        },
    }
}

/// A structured query: every filter and every full-text condition must
/// hold, and the records that match are handed out in the order of the
/// sort.
#[derive(Debug, PartialEq)]
pub struct Query {
    pub filters: Vec<Filter>,
    pub matches: Vec<TextMatch>,
    pub sort: Sort,
}

/// What a query asks, as mathematical values.
pub struct QueryValue {
    pub filters: Seq<(Seq<char>, ScalarValue)>,
    pub matches: Seq<(Seq<char>, Seq<char>)>,
    pub sort: Sort,
}

impl View for Query {
    type V = QueryValue;

    open spec fn view(&self) -> QueryValue {
        QueryValue {
            filters: Seq::new(
                self.filters@.len(),
                |i: int| (self.filters@[i].field@, self.filters@[i].value@),
            ),
            matches: Seq::new(
                self.matches@.len(),
                |i: int| (self.matches@[i].field@, self.matches@[i].text@),
            ),
            sort: self.sort,
        }
    }
}

/// The state that a fingerprint starts from.
pub const SEED: u64 = 0xcbf29ce484222325;

/// The multiplier of the mixing step.
pub const PRIME: u64 = 0x100000001b3;

/// The word that ends a text; no byte of a text's encoding equals it.
pub const END_OF_TEXT: u64 = 0xff;

/// The word that opens a filter.
pub const FILTER: u64 = 0x100;

/// The word that opens a full-text condition.
pub const MATCH: u64 = 0x101;

/// The words that open the kinds of scalar.
pub const NULL: u64 = 0x110;

pub const BOOLEAN: u64 = 0x111;

pub const INTEGER: u64 = 0x112;

pub const REAL: u64 = 0x113;

pub const TEXT: u64 = 0x114;

pub const BYTES: u64 = 0x115;

/// The word for the sort by relevance.
pub const BY_RELEVANCE: u64 = 0x120;

/// The state after one word has been mixed in.
pub open spec fn mixed(state: u64, word: u64) -> u64 {
    (state ^ word).wrapping_mul(PRIME)
}

/// The state after the bytes have been mixed in, one by one.
pub open spec fn absorbed(state: u64, bytes: Seq<u8>) -> u64
    decreases bytes.len(),
{
    if bytes.len() == 0 {
        state
    } else {
        mixed(absorbed(state, bytes.drop_last()), bytes.last() as u64)
    }
}

/// The state after a text has been mixed in: its encoding, then the end
/// mark.
pub open spec fn with_text(state: u64, text: Seq<char>) -> u64 {
    mixed(absorbed(state, vstd::utf8::encode_utf8(text)), END_OF_TEXT)
}

/// The state after a scalar has been mixed in: its kind, then its value.
pub open spec fn with_scalar(state: u64, value: ScalarValue) -> u64 {
    match value {
        ScalarValue::Null => mixed(state, NULL),
        ScalarValue::Boolean(b) => mixed(mixed(state, BOOLEAN), if b {
            1
        } else {
            0
        }),
        ScalarValue::Integer(i) => mixed(mixed(state, INTEGER), i as u64),
        ScalarValue::Real(bits) => mixed(mixed(state, REAL), bits),
        ScalarValue::Text(text) => with_text(mixed(state, TEXT), text),
        ScalarValue::Bytes(bytes) => absorbed(mixed(mixed(state, BYTES), bytes.len() as u64), bytes),
    }
}

/// The state after the filters have been mixed in, in order.
pub open spec fn with_filters(state: u64, filters: Seq<(Seq<char>, ScalarValue)>) -> u64
    decreases filters.len(),
{
    if filters.len() == 0 {
        state
    } else {
        with_scalar(
            with_text(mixed(with_filters(state, filters.drop_last()), FILTER), filters.last().0),
            filters.last().1,
        )
    }
}

/// The state after the full-text conditions have been mixed in, in order.
pub open spec fn with_matches(state: u64, matches: Seq<(Seq<char>, Seq<char>)>) -> u64
    decreases matches.len(),
{
    if matches.len() == 0 {
        state
    } else {
        with_text(
            with_text(mixed(with_matches(state, matches.drop_last()), MATCH), matches.last().0),
            matches.last().1,
        )
    }
}

/// The word that stands for a sort.
pub open spec fn sort_word(sort: Sort) -> u64 {
    match sort {
        Sort::Relevance => BY_RELEVANCE,
    }
}

/// The fingerprint of a query: its filters, then its full-text
/// conditions, then its sort, mixed into the seed.
pub open spec fn fingerprint_of(query: QueryValue) -> u64 {
    mixed(with_matches(with_filters(SEED, query.filters), query.matches), sort_word(query.sort))
}

fn mix(state: u64, word: u64) -> (next: u64)
    ensures
        next == mixed(state, word),
{
    (state ^ word).wrapping_mul(PRIME)
}

fn absorb(state: u64, bytes: &[u8]) -> (next: u64)
    ensures
        next == absorbed(state, bytes@),
{
    let mut next = state;
    let mut i: usize = 0;
    while i < bytes.len()
        invariant
            i <= bytes@.len(),
            next == absorbed(state, bytes@.subrange(0, i as int)),
        decreases bytes@.len() - i,
    {
        proof {
            assert(bytes@.subrange(0, i + 1).drop_last() =~= bytes@.subrange(0, i as int));
        }
        next = mix(next, bytes[i] as u64);
        i = i + 1;
    }
    assert(bytes@.subrange(0, bytes@.len() as int) =~= bytes@);
    next
}

fn absorb_text(state: u64, text: &str) -> (next: u64)
    ensures
        next == with_text(state, text@),
{
    mix(absorb(state, text.as_bytes()), END_OF_TEXT)
}

fn absorb_scalar(state: u64, value: &Scalar) -> (next: u64)
    ensures
        next == with_scalar(state, value@),
{
    match value {
        Scalar::Null => mix(state, NULL),
        Scalar::Boolean(b) => mix(mix(state, BOOLEAN), if *b {
            1
        } else {
            0
        }),
        Scalar::Integer(i) => mix(mix(state, INTEGER), #[verifier::truncate] (*i as u64)),
        Scalar::Real(bits) => mix(mix(state, REAL), *bits),
        Scalar::Text(text) => absorb_text(mix(state, TEXT), text.as_str()),
        Scalar::Bytes(bytes) => absorb(mix(mix(state, BYTES), bytes.len() as u64), bytes.as_slice()),
    }
}

impl Query {
    /// Computes the fingerprint of the query.
    pub fn fingerprint(&self) -> (fingerprint: u64)
        ensures
            fingerprint == fingerprint_of(self@),
    {
        let mut state = SEED;
        let mut i: usize = 0;
        while i < self.filters.len()
            invariant
                i <= self.filters@.len(),
                state == with_filters(SEED, self@.filters.subrange(0, i as int)),
            decreases self.filters@.len() - i,
        {
            proof {
                assert(self@.filters.subrange(0, i + 1).drop_last() =~= self@.filters.subrange(0, i as int));
            }
            let filter = &self.filters[i];
            state = absorb_scalar(absorb_text(mix(state, FILTER), filter.field.as_str()), &filter.value);
            i = i + 1;
        }
        assert(self@.filters.subrange(0, self.filters@.len() as int) =~= self@.filters);
        let ghost filtered = state;
        let mut k: usize = 0;
        while k < self.matches.len()
            invariant
                k <= self.matches@.len(),
                state == with_matches(filtered, self@.matches.subrange(0, k as int)),
            decreases self.matches@.len() - k,
        {
            proof {
                assert(self@.matches.subrange(0, k + 1).drop_last() =~= self@.matches.subrange(0, k as int));
            }
            let clause = &self.matches[k];
            state = absorb_text(absorb_text(mix(state, MATCH), clause.field.as_str()), clause.text.as_str());
            k = k + 1;
        }
        assert(self@.matches.subrange(0, self.matches@.len() as int) =~= self@.matches);
        let word = match self.sort {
            Sort::Relevance => BY_RELEVANCE,
        };
        mix(state, word)
    }
}

} // verus!
