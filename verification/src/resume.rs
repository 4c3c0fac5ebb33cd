//! Laws of resuming: pages that follow one another cover a ranking
//! without repeating or skipping a record.

use crate::pagination::{admits, next_of, ordered, page_len, page_of, remaining, Cursor, Entry};
use vstd::prelude::*;

verus! {

/// Every entry that remains after a position is an entry of the ranking
/// and comes after that position.
pub proof fn remaining_is_drawn(entries: Seq<Entry>, resume: Option<Cursor>, k: int)
    requires
        0 <= k < remaining(entries, resume).len(),
    ensures
        remaining(entries, resume)[k].after(resume),
        exists|j: int| 0 <= j < entries.len() && entries[j] == remaining(entries, resume)[k],
    decreases entries.len(),
{
    let front = entries.drop_last();
    if entries.last().after(resume) && k == remaining(front, resume).len() {
        assert(entries[entries.len() - 1] == remaining(entries, resume)[k]);
    } else {
        remaining_is_drawn(front, resume, k);
        let j = choose|j: int| 0 <= j < front.len() && front[j] == remaining(front, resume)[k];
        assert(entries[j] == remaining(entries, resume)[k]);
    }
}

/// Nothing remains after a position that no entry comes after.
pub proof fn nothing_remains(entries: Seq<Entry>, resume: Option<Cursor>)
    requires
        forall|j: int| 0 <= j < entries.len() ==> !(#[trigger] entries[j]).after(resume),
    ensures
        remaining(entries, resume).len() == 0,
    decreases entries.len(),
{
    if entries.len() > 0 {
        let front = entries.drop_last();
        assert(!entries[entries.len() - 1].after(resume));
        assert forall|j: int| 0 <= j < front.len() implies !(#[trigger] front[j]).after(resume) by {
            assert(!entries[j].after(resume));
        }
        nothing_remains(front, resume);
    }
}

/// In a ranking in strict order, what remains after the position of the
/// `k`-th remaining entry is what followed that entry.
pub proof fn resume_skips_exactly(entries: Seq<Entry>, resume: Option<Cursor>, k: int, fingerprint: u64)
    requires
        ordered(entries),
        0 <= k < remaining(entries, resume).len(),
    ensures
        remaining(entries, Some(remaining(entries, resume)[k].position(fingerprint))) == remaining(
            entries,
            resume,
        ).subrange(k + 1, remaining(entries, resume).len() as int),
    decreases entries.len(),
{
    let all = remaining(entries, resume);
    let at = Some(all[k].position(fingerprint));
    let front = entries.drop_last();
    let last = entries.last();
    let kept = remaining(front, resume);
    assert(ordered(front)) by {
        assert forall|i: int, j: int|
            #![trigger front[i], front[j]]
            0 <= i < j < front.len() implies front[i].precedes(&front[j]) by {
            assert(entries[i].precedes(&entries[j]));
        }
    }
    if k < kept.len() {
        remaining_is_drawn(front, resume, k);
        let j = choose|j: int| 0 <= j < front.len() && front[j] == kept[k];
        assert(entries[j].precedes(&entries[entries.len() - 1]));
        assert(all[k] == kept[k]);
        assert(last.after(at));
        assert(last.after(resume));
        resume_skips_exactly(front, resume, k, fingerprint);
        assert(remaining(entries, at) =~= all.subrange(k + 1, all.len() as int));
    } else {
        assert(last.after(resume));
        assert(all[k] == last);
        assert(!last.after(at));
        assert forall|j: int| 0 <= j < front.len() implies !(#[trigger] front[j]).after(at) by {
            assert(entries[j].precedes(&entries[entries.len() - 1]));
        }
        nothing_remains(front, at);
        assert(remaining(entries, at) =~= all.subrange(k + 1, all.len() as int));
    }
}

/// Two pages of `limit` records, the second resumed at the cursor of the
/// first, hold the same records in the same order as one page of twice
/// the limit, and end at the same cursor. Where the first page names no
/// cursor, it is already that larger page.
pub proof fn two_pages_make_one(entries: Seq<Entry>, resume: Option<Cursor>, limit: int, fingerprint: u64)
    requires
        ordered(entries),
        limit > 0,
    ensures
        match next_of(entries, resume, limit, fingerprint) {
            Some(cursor) => {
                &&& admits(fingerprint, Some(cursor))
                &&& page_of(entries, resume, limit) + page_of(entries, Some(cursor), limit) == page_of(
                    entries,
                    resume,
                    2 * limit,
                )
                &&& next_of(entries, Some(cursor), limit, fingerprint) == next_of(
                    entries,
                    resume,
                    2 * limit,
                    fingerprint,
                )
            },
            None => page_of(entries, resume, limit) == page_of(entries, resume, 2 * limit) && next_of(
                entries,
                resume,
                2 * limit,
                fingerprint,
            ) is None,
        },
{
    let all = remaining(entries, resume);
    if limit < all.len() {
        let cursor = all[limit - 1].position(fingerprint);
        resume_skips_exactly(entries, resume, limit - 1, fingerprint);
        let rest = remaining(entries, Some(cursor));
        assert(rest == all.subrange(limit, all.len() as int));
        assert(page_of(entries, resume, limit) + page_of(entries, Some(cursor), limit) =~= page_of(
            entries,
            resume,
            2 * limit,
        ));
    } else {
        assert(page_of(entries, resume, limit) =~= page_of(entries, resume, 2 * limit));
    }
}

/// The pages that follow one another never hold a record twice: every
/// record of the second page ranks strictly after every record of the
/// first.
pub proof fn pages_do_not_overlap(
    entries: Seq<Entry>,
    resume: Option<Cursor>,
    limit: int,
    fingerprint: u64,
    i: int,
    j: int,
)
    requires
        ordered(entries),
        limit > 0,
        next_of(entries, resume, limit, fingerprint) is Some,
        0 <= i < page_len(entries, resume, limit),
        0 <= j < page_len(entries, next_of(entries, resume, limit, fingerprint), limit),
    ensures
        page_of(entries, resume, limit)[i].precedes(
            &page_of(entries, next_of(entries, resume, limit, fingerprint), limit)[j],
        ),
{
    let all = remaining(entries, resume);
    let cursor = all[limit - 1].position(fingerprint);
    resume_skips_exactly(entries, resume, limit - 1, fingerprint);
    remaining_keeps_order(entries, resume);
    assert(all[i].precedes(&all[limit + j]));
}

/// What remains of a ranking in strict order is in strict order.
pub proof fn remaining_keeps_order(entries: Seq<Entry>, resume: Option<Cursor>)
    requires
        ordered(entries),
    ensures
        ordered(remaining(entries, resume)),
    decreases entries.len(),
{
    if entries.len() > 0 {
        let front = entries.drop_last();
        let kept = remaining(front, resume);
        let all = remaining(entries, resume);
        assert(ordered(front)) by {
            assert forall|i: int, j: int|
                #![trigger front[i], front[j]]
                0 <= i < j < front.len() implies front[i].precedes(&front[j]) by {
                assert(entries[i].precedes(&entries[j]));
            }
        }
        remaining_keeps_order(front, resume);
        assert forall|i: int, j: int|
            #![trigger all[i], all[j]]
            0 <= i < j < all.len() implies all[i].precedes(&all[j]) by {
            if j < kept.len() {
                assert(kept[i].precedes(&kept[j]));
            } else {
                remaining_is_drawn(front, resume, i);
                let m = choose|m: int| 0 <= m < front.len() && front[m] == kept[i];
                assert(entries[m].precedes(&entries[entries.len() - 1]));
            }
        }
    }
}

/// A cursor is refused by every query whose fingerprint differs from the
/// one it was issued for, and admitted by the query that issued it.
pub proof fn cursor_is_bound_to_its_query(
    entries: Seq<Entry>,
    resume: Option<Cursor>,
    limit: int,
    issued_for: u64,
    submitted_with: u64,
)
    requires
        next_of(entries, resume, limit, issued_for) is Some,
    ensures
        admits(submitted_with, next_of(entries, resume, limit, issued_for)) == (submitted_with
            == issued_for),
{
}

} // verus!
