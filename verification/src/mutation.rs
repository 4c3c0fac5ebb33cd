//! The decisions of an atomic mutation batch: which piece of store work
//! comes next, and what is answered once the store has reported on the
//! last one. The caller carries each directive out and hands back the
//! store's outcome.

use crate::errors::{ApiError, StorageFailure};
use crate::operation::{Constraint, ConstraintKind, Mutation, Operation, OperationKind};
use vstd::prelude::*;

verus! {

/// Where a batch stands.
#[derive(Debug, Clone, Copy, PartialEq, Eq, Structural)]
pub enum Phase {
    /// the transaction is being opened
    Opening,
    /// the statement at this position is being applied
    Applying(usize),
    /// the transaction is being committed
    Committing,
    /// the batch has been answered
    Closed,
}

/// What the caller does next.
#[derive(Debug, PartialEq)]
pub enum Directive {
    /// open a transaction
    Begin,
    /// apply the statement at this position inside the transaction
    Apply(usize),
    /// commit the transaction
    Commit,
    /// roll the transaction back, then answer with the failure
    Abort(ApiError),
    /// answer with success
    Succeed,
    /// answer with the failure; no transaction is open
    Fail(ApiError),
    /// nothing is left to do
    Rest,
}

/// What the store reported on one piece of work.
pub type Outcome = Result<(), StorageFailure>;

impl Directive {
    /// Whether the directive is work for the store, on which the store
    /// reports an outcome.
    pub open spec fn is_store_work(&self) -> bool {
        self is Begin || self is Apply || self is Commit
    }
}

impl Phase {
    /// Whether the phase can arise for `batch`.
    pub open spec fn fits(&self, batch: &Mutation) -> bool {
        match self {
            Phase::Opening => batch.size() > 0,
            Phase::Applying(i) => *i < batch.size(),
            Phase::Committing => batch.size() > 0,
            Phase::Closed => true,
        }
    }
}

impl Phase {
    /// Tests whether the phase can arise for `batch`.
    pub fn is_fit(&self, batch: &Mutation) -> (result: bool)
        ensures
            result == self.fits(batch),
    {
        match self {
            Phase::Opening => batch.mutations.len() > 0,
            Phase::Applying(i) => *i < batch.mutations.len(),
            Phase::Committing => batch.mutations.len() > 0,
            Phase::Closed => true,
        }
    }
}

/// The failure that a statement's failure becomes: a conflict where the
/// statement is tagged unique and the store reported a uniqueness
/// violation, the store's failure itself otherwise.
pub open spec fn classified(operation: &Operation, index: usize, failure: StorageFailure) -> ApiError {
    if operation.tagged_unique() && failure.violates_uniqueness() {
        ApiError::Conflict { index, constraint: Constraint { kind: ConstraintKind::Unique } }
    } else {
        ApiError::Storage(failure)
    }
}

/// The first phase and directive of a batch.
pub open spec fn opening(batch: &Mutation) -> (Phase, Directive) {
    if batch.size() == 0 {
        (Phase::Closed, Directive::Succeed)
    } else {
        (Phase::Opening, Directive::Begin)
    }
}

/// The phase and directive that follow `phase` once the store has
/// reported `outcome` on the work of that phase.
pub open spec fn step(batch: &Mutation, phase: Phase, outcome: Outcome) -> (Phase, Directive) {
    match phase {
        Phase::Opening => match outcome {
            Ok(_) => (Phase::Applying(0), Directive::Apply(0)),
            Err(failure) => (Phase::Closed, Directive::Fail(ApiError::Storage(failure))),
        },
        Phase::Applying(i) => match outcome {
            Ok(_) => if i + 1 < batch.size() {
                (Phase::Applying((i + 1) as usize), Directive::Apply((i + 1) as usize))
            } else {
                (Phase::Committing, Directive::Commit)
            },
            Err(failure) => (
                Phase::Closed,
                Directive::Abort(classified(&batch.mutations@[i as int], i, failure)),
            ),
        },
        Phase::Committing => match outcome {
            Ok(_) => (Phase::Closed, Directive::Succeed),
            Err(failure) => (Phase::Closed, Directive::Fail(ApiError::Storage(failure))),
        },
        Phase::Closed => (Phase::Closed, Directive::Rest),
    }
}

impl ApiError {
    /// Classifies the failure of the statement at `index` of its batch.
    pub fn from_error_and_operation(failure: StorageFailure, operation: &Operation, index: usize) -> (error:
        ApiError)
        ensures
            error == classified(operation, index, failure),
    {
        match operation.kind {
            Some(OperationKind::Constraint(Constraint { kind: ConstraintKind::Unique })) => {
                if failure.is_uniqueness_violation() {
                    ApiError::Conflict { index, constraint: Constraint { kind: ConstraintKind::Unique } }
                } else {
                    ApiError::Storage(failure)
                }
            },
            None => ApiError::Storage(failure),
        }
    }
}

/// Starts a batch. An empty batch is answered at once, with no work for
/// the store.
pub fn begin(batch: &Mutation) -> (next: (Phase, Directive))
    ensures
        next == opening(batch),
        next.0.fits(batch),
        batch.size() == 0 ==> next.0 == Phase::Closed && next.1 == Directive::Succeed,
{
    if batch.mutations.len() == 0 {
        (Phase::Closed, Directive::Succeed)
    } else {
        (Phase::Opening, Directive::Begin)
    }
}

/// Decides what follows the store's report on the work of `phase`.
/// Statements are applied in the order of the batch; the first failure
/// ends the batch, and a commit is asked for only after the last
/// statement has succeeded.
pub fn advance(batch: &Mutation, phase: Phase, outcome: Outcome) -> (next: (Phase, Directive))
    requires
        phase.fits(batch),
    ensures
        next == step(batch, phase, outcome),
        next.0.fits(batch),
{
    match phase {
        Phase::Opening => match outcome {
            Ok(_) => (Phase::Applying(0), Directive::Apply(0)),
            Err(failure) => (Phase::Closed, Directive::Fail(ApiError::Storage(failure))),
        },
        Phase::Applying(i) => match outcome {
            Ok(_) => if i < batch.mutations.len() - 1 {
                (Phase::Applying(i + 1), Directive::Apply(i + 1))
            } else {
                (Phase::Committing, Directive::Commit)
            },
            Err(failure) => (
                Phase::Closed,
                Directive::Abort(ApiError::from_error_and_operation(failure, &batch.mutations[i], i)),
            ),
        },
        Phase::Committing => match outcome {
            Ok(_) => (Phase::Closed, Directive::Succeed),
            Err(failure) => (Phase::Closed, Directive::Fail(ApiError::Storage(failure))),
        },
        Phase::Closed => (Phase::Closed, Directive::Rest),
    }
}

} // verus!
