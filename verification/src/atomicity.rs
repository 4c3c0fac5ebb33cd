//! What a store with transactions holds after a batch has been run
//! against it, whatever the store reports along the way.

use crate::mutation::{opening, step, Directive, Outcome, Phase};
use crate::operation::Mutation;
use vstd::prelude::*;

verus! {

/// The statements whose effects a store holds: those made durable by a
/// commit, and those applied inside the open transaction.
pub struct Ledger {
    pub durable: Seq<int>,
    pub pending: Seq<int>,
}

/// The positions `0, 1, .., n - 1`.
pub open spec fn positions(n: int) -> Seq<int> {
    Seq::new(n as nat, |i: int| i)
}

/// The ledger after the store has carried out `directive`, with or
/// without success. Only a successful commit makes pending effects
/// durable; a rollback, a failed commit and a new transaction drop them.
pub open spec fn carry_out(ledger: Ledger, directive: Directive, succeeded: bool) -> Ledger {
    match directive {
        Directive::Begin => Ledger { durable: ledger.durable, pending: Seq::empty() },
        Directive::Apply(i) => if succeeded {
            Ledger { durable: ledger.durable, pending: ledger.pending.push(i as int) }
        } else {
            ledger
        },
        Directive::Commit => if succeeded {
            Ledger { durable: ledger.durable + ledger.pending, pending: Seq::empty() }
        } else {
            Ledger { durable: ledger.durable, pending: Seq::empty() }
        },
        Directive::Abort(_) => Ledger { durable: ledger.durable, pending: Seq::empty() },
        _ => ledger,
    }
}

/// The ledger once the batch has run from `phase`, where `directive` is
/// the work at hand and `outcomes` are the store's reports, in order. A
/// store that stops reporting leaves its transaction unfinished, and
/// nothing pending survives.
pub open spec fn run(
    batch: &Mutation,
    phase: Phase,
    directive: Directive,
    outcomes: Seq<Outcome>,
    ledger: Ledger,
) -> Ledger
    decreases outcomes.len(),
{
    if !directive.is_store_work() {
        carry_out(ledger, directive, true)
    } else if outcomes.len() == 0 {
        Ledger { durable: ledger.durable, pending: Seq::empty() }
    } else {
        let next = step(batch, phase, outcomes[0]);
        run(
            batch,
            next.0,
            next.1,
            outcomes.drop_first(),
            carry_out(ledger, directive, outcomes[0] is Ok),
        )
    }
}

/// The durable effects of a batch run against a store that held `before`.
pub open spec fn durable_after(batch: &Mutation, outcomes: Seq<Outcome>, before: Seq<int>) -> Seq<int> {
    run(
        batch,
        opening(batch).0,
        opening(batch).1,
        outcomes,
        Ledger { durable: before, pending: Seq::empty() },
    ).durable
}

/// Whether the store reported success on each of the first `count` pieces
/// of work.
pub open spec fn all_succeeded(outcomes: Seq<Outcome>, count: int) -> bool {
    outcomes.len() >= count && forall|k: int| 0 <= k < count ==> (#[trigger] outcomes[k]) is Ok
}

/// After a first success, the store succeeded on the first `count + 1`
/// pieces of work exactly if it succeeded on the `count` that follow the
/// first.
proof fn success_shifts(outcomes: Seq<Outcome>, count: int)
    requires
        outcomes.len() > 0,
        outcomes[0] is Ok,
        count >= 0,
    ensures
        all_succeeded(outcomes, count + 1) == all_succeeded(outcomes.drop_first(), count),
{
    let rest = outcomes.drop_first();
    if all_succeeded(rest, count) {
        assert forall|k: int| 0 <= k < count + 1 implies (#[trigger] outcomes[k]) is Ok by {
            if k > 0 {
                assert(rest[k - 1] is Ok);
            }
        }
    }
    if all_succeeded(outcomes, count + 1) {
        assert forall|k: int| 0 <= k < count implies (#[trigger] rest[k]) is Ok by {
            assert(outcomes[k + 1] is Ok);
        }
    }
}

/// From the statement at `i` on, with the statements before it pending:
/// the batch becomes durable as a whole if the store succeeds on every
/// remaining statement and on the commit, and leaves no trace otherwise.
proof fn run_from_statement(batch: &Mutation, i: usize, outcomes: Seq<Outcome>, ledger: Ledger)
    requires
        i < batch.size(),
        ledger.pending == positions(i as int),
    ensures
        run(batch, Phase::Applying(i), Directive::Apply(i), outcomes, ledger).durable == if all_succeeded(
            outcomes,
            batch.size() - i + 1,
        ) {
            ledger.durable + positions(batch.size() as int)
        } else {
            ledger.durable
        },
    decreases batch.size() - i,
{
    let n = batch.size() as int;
    assert(n == batch.mutations.len());
    if outcomes.len() == 0 {
    } else {
        let rest = outcomes.drop_first();
        let after = carry_out(ledger, Directive::Apply(i), outcomes[0] is Ok);
        if outcomes[0] is Ok {
            assert(after.pending =~= positions(i + 1));
            if i + 1 < n {
                run_from_statement(batch, (i + 1) as usize, rest, after);
                success_shifts(outcomes, n - i);
            } else {
                reveal_with_fuel(run, 3);
                if rest.len() == 0 {
                } else {
                    assert(rest[0] == outcomes[1]);
                    if rest[0] is Ok {
                        assert forall|k: int| 0 <= k < 2 implies (#[trigger] outcomes[k]) is Ok by {}
                    }
                }
            }
        } else {
            reveal_with_fuel(run, 2);
        }
    }
}

/// A batch is all or nothing: after any run, the store holds either what
/// it held before, or that and every statement of the batch, in the order
/// of the batch. It holds the batch exactly when the store succeeded on
/// opening the transaction, on every statement and on the commit.
pub proof fn batch_is_atomic(batch: &Mutation, outcomes: Seq<Outcome>, before: Seq<int>)
    ensures
        durable_after(batch, outcomes, before) == if all_succeeded(outcomes, batch.size() as int + 2) {
            before + positions(batch.size() as int)
        } else {
            before
        },
{
    let n = batch.size() as int;
    let ledger = Ledger { durable: before, pending: Seq::empty() };
    reveal_with_fuel(run, 2);
    if n == 0 {
        assert(before + positions(0) =~= before);
    } else if outcomes.len() == 0 {
    } else {
        let rest = outcomes.drop_first();
        let after = carry_out(ledger, Directive::Begin, outcomes[0] is Ok);
        if outcomes[0] is Ok {
            assert(after.pending =~= positions(0));
            run_from_statement(batch, 0, rest, after);
            success_shifts(outcomes, n + 1);
        }
    }
}

/// If the store fails on any piece of the batch's work, no statement of
/// the batch has an effect afterwards.
pub proof fn failed_batch_leaves_no_trace(
    batch: &Mutation,
    outcomes: Seq<Outcome>,
    before: Seq<int>,
    failed: int,
)
    requires
        0 <= failed < outcomes.len(),
        failed < batch.size() + 2,
        outcomes[failed] is Err,
    ensures
        durable_after(batch, outcomes, before) == before,
{
    batch_is_atomic(batch, outcomes, before);
}

/// An empty batch asks nothing of the store and leaves it as it was.
pub proof fn empty_batch_touches_nothing(batch: &Mutation, outcomes: Seq<Outcome>, before: Seq<int>)
    requires
        batch.size() == 0,
    ensures
        !opening(batch).1.is_store_work(),
        opening(batch).1 == Directive::Succeed,
        durable_after(batch, outcomes, before) == before,
{
    reveal_with_fuel(run, 2);
}

} // verus!
