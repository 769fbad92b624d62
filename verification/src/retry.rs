//! How often an operation on the store is tried again before it is given up.

use vstd::prelude::*;
use crate::store::InsertOutcome;

verus! {

/// The most candidate keys that one creation tries.
pub const MAX_KEY_ATTEMPTS: u32 = 1000;

/// The most transactions that one resolution runs.
pub const MAX_COMMIT_ATTEMPTS: u32 = 10;

/// What follows an attempt.
#[derive(Debug, Clone, Copy, PartialEq, Eq, Structural)]
pub enum Next {
    /// The attempt settled the operation: its outcome is the answer.
    Finish,
    /// The attempt failed in a way that another attempt may mend.
    Retry,
    /// The attempt failed and no further attempt is made: a storage error.
    GiveUp,
}

/// How one transaction that resolves a key ended.
#[derive(Debug, Clone, Copy, PartialEq, Eq, Structural)]
pub enum TransactionOutcome {
    /// It committed and the record is still there.
    Committed,
    /// It found no record under the key, or removed the one it found.
    NotFound,
    /// It did not commit, for a reason that may pass.
    Failed,
}

/// What follows the `attempt`-th try (counted from 1) to insert a record
/// under a fresh key: a conflict is answered with another key until
/// `MAX_KEY_ATTEMPTS` keys were tried, a storage error ends the creation at
/// once.
pub open spec fn next_after_insert(attempt: int, outcome: InsertOutcome) -> Next {
    match outcome {
        InsertOutcome::Inserted => Next::Finish,
        InsertOutcome::KeyConflict => if attempt < MAX_KEY_ATTEMPTS {
            Next::Retry
        } else {
            Next::GiveUp
        },
        InsertOutcome::StorageError => Next::GiveUp,
    }
}

/// What follows the `attempt`-th transaction (counted from 1) that resolves
/// a key: a missing record is final, a failed commit is tried again until
/// `MAX_COMMIT_ATTEMPTS` transactions were run.
pub open spec fn next_after_transaction(attempt: int, outcome: TransactionOutcome) -> Next {
    match outcome {
        TransactionOutcome::Committed => Next::Finish,
        TransactionOutcome::NotFound => Next::Finish,
        TransactionOutcome::Failed => if attempt < MAX_COMMIT_ATTEMPTS {
            Next::Retry
        } else {
            Next::GiveUp
        },
    }
}

/// Decides what follows the `attempt`-th try to insert a record.
pub fn after_insert(attempt: u32, outcome: InsertOutcome) -> (next: Next)
    ensures
        next == next_after_insert(attempt as int, outcome),
{
    match outcome {
        InsertOutcome::Inserted => Next::Finish,
        InsertOutcome::KeyConflict => if attempt < MAX_KEY_ATTEMPTS {
            Next::Retry
        } else {
            Next::GiveUp
        },
        InsertOutcome::StorageError => Next::GiveUp,
    }
}

/// Decides what follows the `attempt`-th transaction of a resolution.
pub fn after_transaction(attempt: u32, outcome: TransactionOutcome) -> (next: Next)
    ensures
        next == next_after_transaction(attempt as int, outcome),
{
    match outcome {
        TransactionOutcome::Committed => Next::Finish,
        TransactionOutcome::NotFound => Next::Finish,
        TransactionOutcome::Failed => if attempt < MAX_COMMIT_ATTEMPTS {
            Next::Retry
        } else {
            Next::GiveUp
        },
    }
}

} // verus!
