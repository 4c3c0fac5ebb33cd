//! Pages of ranked search results and the positions at which a later
//! request resumes.

use crate::errors::SearchError;
use vstd::prelude::*;

verus! {

/// One matching record in a ranking. The score is held as the bit pattern
/// of a non-negative 32-bit real, whose order is the order of the reals;
/// the ordinal tells apart records of equal score.
#[derive(Debug, PartialEq)]
pub struct Entry {
    pub score: u32,
    pub ordinal: u64,
    pub id: String,
}

/// One record of a page, as the response names it.
#[derive(Debug, PartialEq)]
pub struct Hit {
    pub id: String,
    pub score: u32,
}

/// A resume position: the rank of the last record handed out, and the
/// fingerprint of the query that it was handed out for.
#[derive(Debug, Clone, Copy, PartialEq, Eq, Structural)]
pub struct Cursor {
    pub score: u32,
    pub ordinal: u64,
    pub fingerprint: u64,
}

/// How many records a page may hold, and where it resumes.
#[derive(Debug, Clone, Copy, PartialEq, Eq, Structural)]
pub struct Pagination {
    pub limit: usize,
    pub cursor: Option<Cursor>,
}

/// One page of hits, with the position to resume at if records remain.
#[derive(Debug, PartialEq)]
pub struct PaginatedHits {
    pub hits: Vec<Hit>,
    pub next_cursor: Option<Cursor>,
}

/// Whether rank `(a_score, a_ordinal)` comes strictly before rank
/// `(b_score, b_ordinal)`: higher scores first, lower ordinals first among
/// equal scores.
pub open spec fn ranks_before(a_score: u32, a_ordinal: u64, b_score: u32, b_ordinal: u64) -> bool {
    a_score > b_score || (a_score == b_score && a_ordinal < b_ordinal)
}

impl Entry {
    /// Whether this entry comes strictly before `other` in a ranking.
    pub open spec fn precedes(&self, other: &Entry) -> bool {
        ranks_before(self.score, self.ordinal, other.score, other.ordinal)
    }

    /// Whether this entry comes strictly after the resume position; every
    /// entry comes after no position.
    pub open spec fn after(&self, resume: Option<Cursor>) -> bool {
        match resume {
            Some(cursor) => ranks_before(cursor.score, cursor.ordinal, self.score, self.ordinal),
            None => true,
        }
    }

    /// The hit that stands for this entry in a response.
    pub open spec fn hit(&self) -> Hit {
        Hit { id: self.id, score: self.score }
    }

    /// The position just after this entry, for a query of the given
    /// fingerprint.
    pub open spec fn position(&self, fingerprint: u64) -> Cursor {
        Cursor { score: self.score, ordinal: self.ordinal, fingerprint }
    }

    /// Tests whether the entry comes after the resume position.
    pub fn is_after(&self, resume: &Option<Cursor>) -> (result: bool)
        ensures
            result == self.after(*resume),
    {
        match resume {
            Some(cursor) => cursor.score > self.score || (cursor.score == self.score && cursor.ordinal
                < self.ordinal),
            None => true,
        }
    }
}

/// Whether the entries stand in strict rank order, so that no two share a
/// rank.
pub open spec fn ordered(entries: Seq<Entry>) -> bool {
    forall|i: int, j: int|
        #![trigger entries[i], entries[j]]
        0 <= i < j < entries.len() ==> entries[i].precedes(&entries[j])
}

/// The entries that come after the resume position, in the order given.
pub open spec fn remaining(entries: Seq<Entry>, resume: Option<Cursor>) -> Seq<Entry>
    decreases entries.len(),
{
    if entries.len() == 0 {
        Seq::empty()
    } else if entries.last().after(resume) {
        remaining(entries.drop_last(), resume).push(entries.last())
    } else {
        remaining(entries.drop_last(), resume)
    }
}

/// The number of entries on the page that resumes at `resume`.
pub open spec fn page_len(entries: Seq<Entry>, resume: Option<Cursor>, limit: int) -> int {
    if limit < remaining(entries, resume).len() {
        limit
    } else {
        remaining(entries, resume).len() as int
    }
}

/// The entries on the page that resumes at `resume`: the first `limit` of
/// those that remain.
pub open spec fn page_of(entries: Seq<Entry>, resume: Option<Cursor>, limit: int) -> Seq<Entry> {
    remaining(entries, resume).subrange(0, page_len(entries, resume, limit))
}

/// The position to resume at after that page: that of its last entry, if
/// the page holds one and entries remain beyond it.
pub open spec fn next_of(entries: Seq<Entry>, resume: Option<Cursor>, limit: int, fingerprint: u64) -> Option<
    Cursor,
> {
    if 0 < limit < remaining(entries, resume).len() {
        Some(remaining(entries, resume)[limit - 1].position(fingerprint))
    } else {
        None
    }
}

/// The hits that stand for a sequence of entries.
pub open spec fn hits_of(entries: Seq<Entry>) -> Seq<Hit> {
    Seq::new(entries.len(), |i: int| entries[i].hit())
}

/// Whether a cursor may be used with a query of the given fingerprint.
pub open spec fn admits(fingerprint: u64, cursor: Option<Cursor>) -> bool {
    match cursor {
        Some(cursor) => cursor.fingerprint == fingerprint,
        None => true,
    }
}

/// Checks that the entries stand in strict rank order.
pub fn is_ordered(entries: &Vec<Entry>) -> (result: bool)
    ensures
        result == ordered(entries@),
{
    let n = entries.len();
    if n < 2 {
        return true;
    }
    let mut i: usize = 1;
    while i < n
        invariant
            1 <= i <= n,
            n == entries@.len(),
            forall|k: int| 0 <= k < i - 1 ==> (#[trigger] entries@[k]).precedes(&entries@[k + 1]),
        decreases n - i,
    {
        let a = &entries[i - 1];
        let b = &entries[i];
        if !(a.score > b.score || (a.score == b.score && a.ordinal < b.ordinal)) {
            assert(!entries@[i - 1].precedes(&entries@[i as int]));
            return false;
        }
        i = i + 1;
    }
    proof {
        neighbours_give_order(entries@);
    }
    true
}

/// Entries of which each precedes the next are in strict rank order.
pub proof fn neighbours_give_order(entries: Seq<Entry>)
    requires
        forall|k: int| 0 <= k < entries.len() - 1 ==> (#[trigger] entries[k]).precedes(&entries[k + 1]),
    ensures
        ordered(entries),
{
    assert forall|i: int, j: int|
        #![trigger entries[i], entries[j]]
        0 <= i < j < entries.len() implies entries[i].precedes(&entries[j]) by {
        reaches(entries, i, j);
    }
}

proof fn reaches(entries: Seq<Entry>, i: int, j: int)
    requires
        forall|k: int| 0 <= k < entries.len() - 1 ==> (#[trigger] entries[k]).precedes(&entries[k + 1]),
        0 <= i < j < entries.len(),
    ensures
        entries[i].precedes(&entries[j]),
    decreases j - i,
{
    if j > i + 1 {
        reaches(entries, i, j - 1);
        assert(entries[j - 1].precedes(&entries[j - 1 + 1]));
    } else {
        assert(entries[i].precedes(&entries[i + 1]));
    }
}

/// Cuts one page out of a ranking in strict rank order. A cursor issued
/// for a query of another fingerprint is refused; otherwise the page
/// holds the first `limit` entries after the cursor, and names the
/// position of its last entry when more remain.
pub fn paginate(entries: &Vec<Entry>, fingerprint: u64, pagination: Pagination) -> (result: Result<
    PaginatedHits,
    SearchError,
>)
    requires
        ordered(entries@),
    ensures
        match result {
            Ok(page) => admits(fingerprint, pagination.cursor) && page.hits@ == hits_of(
                page_of(entries@, pagination.cursor, pagination.limit as int),
            ) && page.next_cursor == next_of(
                entries@,
                pagination.cursor,
                pagination.limit as int,
                fingerprint,
            ),
            Err(error) => !admits(fingerprint, pagination.cursor) && error == SearchError::CursorMismatch,
        },
{
    let resume = pagination.cursor;
    let limit = pagination.limit;
    match resume {
        Some(cursor) => {
            if cursor.fingerprint != fingerprint {
                return Err(SearchError::CursorMismatch);
            }
        },
        None => {},
    }
    let n = entries.len();
    let mut hits: Vec<Hit> = Vec::new();
    let mut last: Option<Cursor> = None;
    let mut count: usize = 0;
    let mut i: usize = 0;
    while i < n
        invariant
            i <= n,
            n == entries@.len(),
            count <= i,
            count == remaining(entries@.subrange(0, i as int), resume).len(),
            hits@.len() == if count < limit { count } else { limit },
            hits@ == hits_of(remaining(entries@.subrange(0, i as int), resume).subrange(0, hits@.len() as int)),
            hits@.len() == 0 ==> last is None,
            hits@.len() > 0 ==> last == Some(
                remaining(entries@.subrange(0, i as int), resume)[hits@.len() - 1].position(fingerprint),
            ),
        decreases n - i,
    {
        let ghost before = remaining(entries@.subrange(0, i as int), resume);
        proof {
            assert(entries@.subrange(0, i + 1).drop_last() =~= entries@.subrange(0, i as int));
            assert(entries@.subrange(0, i + 1).last() == entries@[i as int]);
        }
        let entry = &entries[i];
        if entry.is_after(&resume) {
            if count < limit {
                hits.push(Hit { id: entry.id.clone(), score: entry.score });
                last = Some(Cursor { score: entry.score, ordinal: entry.ordinal, fingerprint });
            }
            count = count + 1;
        }
        i = i + 1;
        proof {
            let now = remaining(entries@.subrange(0, i as int), resume);
            assert(hits@ =~= hits_of(now.subrange(0, hits@.len() as int)));
        }
    }
    proof {
        assert(entries@.subrange(0, n as int) =~= entries@);
    }
    let next_cursor = if count > limit {
        last
    } else {
        None
    };
    Ok(PaginatedHits { hits, next_cursor })
}

} // verus!
