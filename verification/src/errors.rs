//! Error types of the typed transaction layer.
//!
//! They mirror the engine's taxonomy one variant for one variant, so that a
//! failure signaled by the engine travels through the typed layer unchanged:
//! a transient conflict indicator is never swallowed or reinterpreted, and a
//! terminal storage failure carries the engine's own error value.

use vstd::prelude::*;

verus! {

/// A terminal engine failure. The engine's error value rides along opaquely.
#[derive(Debug)]
pub struct StorageError {
    pub raw: sled::Error,
}

/// An error raised by a typed view operation when the engine signals that
/// the current attempt cannot safely continue. The closure should hand it
/// upward unchanged; the engine's runner decides whether to retry.
#[derive(Debug)]
pub enum UnabortableError {
    /// A mid-attempt conflict: the runner will retry the attempt.
    Conflict,
    /// A serious storage failure that needs outside attention.
    Storage(StorageError),
}

/// The outcome a transaction closure hands back to the runner.
#[derive(Debug)]
pub enum ConflictableTransactionError<E> {
    /// The caller chose to abort; the payload is surfaced once, with no retry.
    Abort(E),
    /// A conflict to be retried by the runner. Closures should not produce
    /// this themselves; it exists so that an `UnabortableError` can pass
    /// through unchanged.
    Conflict,
    /// A serious storage failure that needs outside attention.
    Storage(StorageError),
}

/// The final outcome of a transaction: the closure's result, the caller's
/// abort payload, or a terminal engine failure.
#[derive(Debug)]
pub enum TransactionError<E> {
    /// The closure chose to abort the transaction.
    Abort(E),
    /// A serious storage failure that needs outside attention.
    Storage(StorageError),
}

/// What a transaction closure returns to the runner.
pub type ConflictableTransactionResult<A, E> = Result<A, ConflictableTransactionError<E>>;

/// What `transaction` returns to the caller.
pub type TransactionResult<A, E> = Result<A, TransactionError<E>>;

impl<E> From<UnabortableError> for ConflictableTransactionError<E> {
    /// Lets a closure propagate a view operation's failure with `?`,
    /// preserving the conflict-versus-storage distinction exactly.
    fn from(e: UnabortableError) -> (r: Self) {
        match e {
            UnabortableError::Conflict => ConflictableTransactionError::Conflict,
            UnabortableError::Storage(s) => ConflictableTransactionError::Storage(s),
        }
    }
}

impl<E> vstd::std_specs::convert::FromSpecImpl<UnabortableError>
    for ConflictableTransactionError<E> {
    open spec fn obeys_from_spec() -> bool {
        true
    }

    open spec fn from_spec(e: UnabortableError) -> Self {
        match e {
            UnabortableError::Conflict => ConflictableTransactionError::Conflict,
            UnabortableError::Storage(s) => ConflictableTransactionError::Storage(s),
        }
    }
}

} // verus!
