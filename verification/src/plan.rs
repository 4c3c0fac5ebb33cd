//! From a structured query to the terms that the index looks up.

use crate::errors::SearchError;
use crate::operation::{Scalar, ScalarValue};
use crate::paths::{names_of, str_equal};
use crate::query::{Query, QueryValue};
use crate::schema::{FieldType, IndexedField};
use crate::tokenizer::{analyze, normalized_tokens};
use vstd::prelude::*;

verus! {

/// One lookup in the index. Every term of a plan must match.
#[derive(Debug, PartialEq)]
pub enum Term {
    /// the physical field `key` holds exactly `value`
    Exact { key: u32, value: Scalar },
    /// the token field `key` holds `token`
    Token { key: u32, token: String },
}

/// What a term looks up, as mathematical values.
pub enum TermValue {
    Exact { key: u32, value: ScalarValue },
    Token { key: u32, token: Seq<char> },
}

impl View for Term {
    type V = TermValue;

    open spec fn view(&self) -> TermValue {
        match self {
            Term::Exact { key, value } => TermValue::Exact { key: *key, value: value@ },
            Term::Token { key, token } => TermValue::Token { key: *key, token: token@ },
        }
    }
}

/// What a list of terms looks up.
pub open spec fn values_of(terms: Seq<Term>) -> Seq<TermValue> {
    Seq::new(terms.len(), |i: int| terms[i]@)
}

/// The position in the layout of the first field called `name`, or the
/// length of the layout if there is none.
pub open spec fn field_position(layout: Seq<IndexedField>, name: Seq<char>) -> int
    decreases layout.len(),
{
    if layout.len() == 0 {
        0
    } else if layout[0].name@ == name {
        0
    } else {
        1 + field_position(layout.drop_first(), name)
    }
}

/// Whether a value can be looked up in a field of the given type. Text,
/// dates and addresses are matched as text, integers and timestamps as
/// integers, reals as reals or integers, truth values as themselves. The
/// absent value and raw bytes cannot be looked up.
pub open spec fn fits(ty: FieldType, value: ScalarValue) -> bool {
    match value {
        ScalarValue::Text(_) => ty.text_valued() || ty is Date || ty is DateTime || ty is IpAddress,
        ScalarValue::Integer(_) => ty is Int || ty is Timestamp || ty is Float,
        ScalarValue::Real(_) => ty is Float,
        ScalarValue::Boolean(_) => ty is Boolean,
        ScalarValue::Null => false,
        ScalarValue::Bytes(_) => false,
    }
}

/// The term of a filter: an exact lookup in the field it names, if the
/// layout has that field and the value fits its type.
pub open spec fn exact_term(layout: Seq<IndexedField>, field: Seq<char>, value: ScalarValue) -> Option<
    TermValue,
> {
    let at = field_position(layout, field);
    if at < layout.len() && fits(layout[at].ty, value) {
        Some(TermValue::Exact { key: layout[at].doc_key, value })
    } else {
        None
    }
}

/// One token lookup per token, in order.
pub open spec fn token_terms(key: u32, tokens: Seq<Seq<char>>) -> Seq<TermValue> {
    Seq::new(tokens.len(), |i: int| TermValue::Token { key, token: tokens[i] })
}

/// The terms of a full-text condition: a lookup of each token of its text
/// in the token field of the field it names, if the layout has that field
/// and the field has a token field.
pub open spec fn match_terms(layout: Seq<IndexedField>, field: Seq<char>, text: Seq<char>) -> Option<
    Seq<TermValue>,
> {
    let at = field_position(layout, field);
    if at < layout.len() && layout[at].tokenized_doc_key is Some {
        Some(token_terms(layout[at].tokenized_doc_key.unwrap(), normalized_tokens(text)))
    } else {
        None
    }
}

/// The terms of the filters, in order, if every filter has one.
pub open spec fn planned_filters(layout: Seq<IndexedField>, filters: Seq<(Seq<char>, ScalarValue)>) -> Option<
    Seq<TermValue>,
>
    decreases filters.len(),
{
    if filters.len() == 0 {
        Some(Seq::empty())
    } else {
        match (
            planned_filters(layout, filters.drop_last()),
            exact_term(layout, filters.last().0, filters.last().1),
        ) {
            (Some(terms), Some(term)) => Some(terms.push(term)),
            _ => None,
        }
    }
}

/// The terms of the full-text conditions, in order, if every condition
/// has them.
pub open spec fn planned_matches(layout: Seq<IndexedField>, matches: Seq<(Seq<char>, Seq<char>)>) -> Option<
    Seq<TermValue>,
>
    decreases matches.len(),
{
    if matches.len() == 0 {
        Some(Seq::empty())
    } else {
        match (
            planned_matches(layout, matches.drop_last()),
            match_terms(layout, matches.last().0, matches.last().1),
        ) {
            (Some(terms), Some(more)) => Some(terms + more),
            _ => None,
        }
    }
}

/// The plan of a query: the terms of its filters, then those of its
/// full-text conditions; none if any part of the query cannot be looked
/// up.
pub open spec fn planned(layout: Seq<IndexedField>, query: QueryValue) -> Option<Seq<TermValue>> {
    match (planned_filters(layout, query.filters), planned_matches(layout, query.matches)) {
        (Some(exact), Some(tokens)) => Some(exact + tokens),
        _ => None,
    }
}

/// Finds a field of the layout by name.
pub fn find_field(layout: &Vec<IndexedField>, name: &str) -> (found: Option<usize>)
    ensures
        match found {
            Some(at) => at == field_position(layout@, name@) && at < layout@.len(),
            None => field_position(layout@, name@) >= layout@.len(),
        },
{
    let mut i: usize = 0;
    assert(layout@.subrange(0, layout@.len() as int) =~= layout@);
    while i < layout.len()
        invariant
            i <= layout@.len(),
            field_position(layout@, name@) == i + field_position(
                layout@.subrange(i as int, layout@.len() as int),
                name@,
            ),
        decreases layout@.len() - i,
    {
        let ghost rest = layout@.subrange(i as int, layout@.len() as int);
        assert(rest[0] == layout@[i as int]);
        assert(rest.drop_first() =~= layout@.subrange(i + 1, layout@.len() as int));
        if str_equal(layout[i].name.as_str(), name) {
            return Some(i);
        }
        i = i + 1;
    }
    None
}

/// Tests whether a value can be looked up in a field of the given type.
pub fn value_fits(ty: FieldType, value: &Scalar) -> (result: bool)
    ensures
        result == fits(ty, value@),
{
    match value {
        Scalar::Text(_) => ty.is_text() || matches!(
            ty,
            FieldType::Date | FieldType::DateTime | FieldType::IpAddress
        ),
        Scalar::Integer(_) => matches!(ty, FieldType::Int | FieldType::Timestamp | FieldType::Float),
        Scalar::Real(_) => matches!(ty, FieldType::Float),
        Scalar::Boolean(_) => matches!(ty, FieldType::Boolean),
        Scalar::Null => false,
        Scalar::Bytes(_) => false,
    }
}

/// Turns tokens into lookups in the token field `key`, one per token, in
/// order.
pub fn text_terms(key: u32, tokens: &Vec<String>) -> (terms: Vec<Term>)
    ensures
        values_of(terms@) == token_terms(key, names_of(tokens@)),
{
    let mut terms: Vec<Term> = Vec::new();
    let mut i: usize = 0;
    while i < tokens.len()
        invariant
            i <= tokens@.len(),
            terms@.len() == i,
            forall|k: int| 0 <= k < i ==> (#[trigger] terms@[k])@ == (TermValue::Token {
                key,
                token: tokens@[k]@,
            }),
        decreases tokens@.len() - i,
    {
        terms.push(Term::Token { key, token: tokens[i].clone() });
        i = i + 1;
    }
    assert(values_of(terms@) =~= token_terms(key, names_of(tokens@)));
    terms
}

/// Plans a query against the layout of an index. A filter or a full-text
/// condition that the index cannot look up makes the whole query
/// unsupported.
pub fn plan(query: &Query, layout: &Vec<IndexedField>) -> (result: Result<Vec<Term>, SearchError>)
    ensures
        match result {
            Ok(terms) => planned(layout@, query@) == Some(values_of(terms@)),
            Err(error) => error == SearchError::UnsupportedQuery && planned(layout@, query@) is None,
        },
{
    let mut terms: Vec<Term> = Vec::new();
    let mut i: usize = 0;
    assert(values_of(terms@) =~= Seq::empty());
    while i < query.filters.len()
        invariant
            i <= query.filters@.len(),
            planned_filters(layout@, query@.filters.subrange(0, i as int)) == Some(values_of(terms@)),
        decreases query.filters@.len() - i,
    {
        proof {
            assert(query@.filters.subrange(0, i + 1).drop_last() =~= query@.filters.subrange(0, i as int));
        }
        let filter = &query.filters[i];
        let ghost before = values_of(terms@);
        match find_field(layout, filter.field.as_str()) {
            Some(at) => {
                if !value_fits(layout[at].ty, &filter.value) {
                    proof {
                        unplanned_filter(layout@, query@.filters, i as int);
                    }
                    return Err(SearchError::UnsupportedQuery);
                }
                terms.push(Term::Exact { key: layout[at].doc_key, value: filter.value.duplicate() });
            },
            None => {
                proof {
                    unplanned_filter(layout@, query@.filters, i as int);
                }
                return Err(SearchError::UnsupportedQuery);
            },
        }
        i = i + 1;
        proof {
            let term = exact_term(layout@, filter.field@, filter.value@).unwrap();
            assert(values_of(terms@) =~= before.push(term));
        }
    }
    assert(query@.filters.subrange(0, query.filters@.len() as int) =~= query@.filters);
    let ghost exact = values_of(terms@);
    let mut k: usize = 0;
    while k < query.matches.len()
        invariant
            k <= query.matches@.len(),
            planned_filters(layout@, query@.filters) == Some(exact),
            planned_matches(layout@, query@.matches.subrange(0, k as int)) is Some,
            values_of(terms@) == exact + planned_matches(
                layout@,
                query@.matches.subrange(0, k as int),
            ).unwrap(),
        decreases query.matches@.len() - k,
    {
        proof {
            assert(query@.matches.subrange(0, k + 1).drop_last() =~= query@.matches.subrange(0, k as int));
        }
        let clause = &query.matches[k];
        let ghost before = values_of(terms@);
        let found = find_field(layout, clause.field.as_str());
        let key = match found {
            Some(at) => layout[at].tokenized_doc_key,
            None => None,
        };
        match key {
            Some(key) => {
                let tokens = analyze(clause.text.as_str());
                let mut more = text_terms(key, &tokens);
                let ghost added = values_of(more@);
                terms.append(&mut more);
                proof {
                    assert(values_of(terms@) =~= before + added);
                    assert(before + added =~= exact + (planned_matches(
                        layout@,
                        query@.matches.subrange(0, k as int),
                    ).unwrap() + added));
                }
            },
            None => {
                proof {
                    unplanned_match(layout@, query@.matches, k as int);
                }
                return Err(SearchError::UnsupportedQuery);
            },
        }
        k = k + 1;
    }
    assert(query@.matches.subrange(0, query.matches@.len() as int) =~= query@.matches);
    Ok(terms)
}

/// A filter without a term leaves the filters without a plan.
proof fn unplanned_filter(layout: Seq<IndexedField>, filters: Seq<(Seq<char>, ScalarValue)>, i: int)
    requires
        0 <= i < filters.len(),
        exact_term(layout, filters[i].0, filters[i].1) is None,
    ensures
        planned_filters(layout, filters) is None,
    decreases filters.len(),
{
    if i < filters.len() - 1 {
        unplanned_filter(layout, filters.drop_last(), i);
    }
}

/// A full-text condition without terms leaves the conditions without a
/// plan.
proof fn unplanned_match(layout: Seq<IndexedField>, matches: Seq<(Seq<char>, Seq<char>)>, k: int)
    requires
        0 <= k < matches.len(),
        match_terms(layout, matches[k].0, matches[k].1) is None,
    ensures
        planned_matches(layout, matches) is None,
    decreases matches.len(),
{
    if k < matches.len() - 1 {
        unplanned_match(layout, matches.drop_last(), k);
    }
}

} // verus!
