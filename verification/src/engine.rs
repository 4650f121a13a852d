//! The trusted boundary to the sled engine.
//!
//! Everything sled-specific that verified code relies on lives here: the
//! declarations that let sled's opaque types appear in signatures and
//! fields, and one trusted wrapper per engine call. Each wrapper's body only
//! makes the call and converts values one for one; its contract states no
//! more than sled's source shows.

use vstd::prelude::*;
use crate::errors::{ConflictableTransactionError, StorageError, TransactionError, UnabortableError};
use sled::transaction::ConflictableTransactionError as SledConflictable;
use sled::transaction::TransactionError as SledTransactionError;
use sled::transaction::Transactional as SledTransactional;
use sled::transaction::UnabortableTransactionError as SledUnabortable;

verus! {

#[verifier::external_type_specification]
#[verifier::external_body]
pub struct ExSledTree(sled::Tree);

#[verifier::external_type_specification]
#[verifier::external_body]
pub struct ExSledTransactionalTree(sled::transaction::TransactionalTree);

#[verifier::external_type_specification]
#[verifier::external_body]
pub struct ExSledBatch(sled::Batch);

#[verifier::external_type_specification]
#[verifier::external_body]
pub struct ExSledError(sled::Error);

/// The writes a raw batch holds: for each touched key, the value it will be
/// set to, or `None` for a removal. sled keeps one staged write per key,
/// the last one recorded winning.
pub uninterp spec fn batch_writes(b: sled::Batch) -> Map<Seq<u8>, Option<Seq<u8>>>;

/// No staged writes: what a fresh batch holds.
pub open spec fn batch_writes_empty() -> Map<Seq<u8>, Option<Seq<u8>>> {
    Map::empty()
}

/// Relies on sled::Batch::default: a fresh batch stages no writes.
#[verifier::external_body]
pub(crate) fn raw_batch_new() -> (b: sled::Batch)
    ensures
        batch_writes(b) == batch_writes_empty(),
{
    sled::Batch::default()
}

/// Relies on sled::Batch::insert: stages "set this key to this value",
/// replacing any write of the same key staged earlier.
#[verifier::external_body]
pub(crate) fn raw_batch_insert(b: &mut sled::Batch, key: Vec<u8>, value: Vec<u8>)
    ensures
        batch_writes(*final(b)) == batch_writes(*old(b)).insert(key@, Some(value@)),
{
    b.insert(key, value)
}

/// Relies on sled::Batch::remove: stages "remove this key", replacing any
/// write of the same key staged earlier.
#[verifier::external_body]
pub(crate) fn raw_batch_remove(b: &mut sled::Batch, key: Vec<u8>)
    ensures
        batch_writes(*final(b)) == batch_writes(*old(b)).insert(key@, None),
{
    b.remove(key)
}

/// Relies on sled::transaction::TransactionalTree::insert: within the
/// current attempt it sets the key to the value and returns the previously
/// visible bytes for that key, if any.
#[verifier::external_body]
pub(crate) fn raw_view_insert(
    t: &sled::transaction::TransactionalTree,
    key: Vec<u8>,
    value: Vec<u8>,
) -> (r: Result<Option<Vec<u8>>, UnabortableError>) {
    match t.insert(key, value) {
        Ok(prev) => Ok(prev.map(|v| v.as_ref().to_vec())),
        Err(SledUnabortable::Conflict) => Err(UnabortableError::Conflict),
        Err(SledUnabortable::Storage(e)) => Err(UnabortableError::Storage(StorageError { raw: e })),
    }
}

/// Relies on sled::transaction::TransactionalTree::remove: within the
/// current attempt it removes the key and returns the previously visible
/// bytes for that key, if any.
#[verifier::external_body]
pub(crate) fn raw_view_remove(
    t: &sled::transaction::TransactionalTree,
    key: Vec<u8>,
) -> (r: Result<Option<Vec<u8>>, UnabortableError>) {
    match t.remove(key) {
        Ok(prev) => Ok(prev.map(|v| v.as_ref().to_vec())),
        Err(SledUnabortable::Conflict) => Err(UnabortableError::Conflict),
        Err(SledUnabortable::Storage(e)) => Err(UnabortableError::Storage(StorageError { raw: e })),
    }
}

/// Relies on sled::transaction::TransactionalTree::get: returns the bytes
/// visible for the key in this attempt, if any.
#[verifier::external_body]
pub(crate) fn raw_view_get(
    t: &sled::transaction::TransactionalTree,
    key: Vec<u8>,
) -> (r: Result<Option<Vec<u8>>, UnabortableError>) {
    match t.get(key) {
        Ok(cur) => Ok(cur.map(|v| v.as_ref().to_vec())),
        Err(SledUnabortable::Conflict) => Err(UnabortableError::Conflict),
        Err(SledUnabortable::Storage(e)) => Err(UnabortableError::Storage(StorageError { raw: e })),
    }
}

/// Relies on sled::transaction::TransactionalTree::apply_batch: applies
/// every staged write of the batch within the current attempt.
#[verifier::external_body]
pub(crate) fn raw_view_apply_batch(
    t: &sled::transaction::TransactionalTree,
    b: &sled::Batch,
) -> (r: Result<(), UnabortableError>) {
    match t.apply_batch(b) {
        Ok(()) => Ok(()),
        Err(SledUnabortable::Conflict) => Err(UnabortableError::Conflict),
        Err(SledUnabortable::Storage(e)) => Err(UnabortableError::Storage(StorageError { raw: e })),
    }
}

/// Relies on sled::transaction::TransactionalTree::flush: marks the
/// transaction so that a successful commit also flushes to disk.
#[verifier::external_body]
pub(crate) fn raw_view_flush(t: &sled::transaction::TransactionalTree) {
    t.flush()
}

/// Relies on sled::transaction::TransactionalTree::generate_id: asks the
/// engine for a fresh monotonic identifier.
#[verifier::external_body]
pub(crate) fn raw_view_generate_id(
    t: &sled::transaction::TransactionalTree,
) -> (r: Result<u64, StorageError>) {
    match t.generate_id() {
        Ok(id) => Ok(id),
        Err(e) => Err(StorageError { raw: e }),
    }
}

/// Relies on sled::Tree::get: returns the committed bytes for the key.
#[verifier::external_body]
pub(crate) fn raw_tree_get(
    t: &sled::Tree,
    key: Vec<u8>,
) -> (r: Result<Option<Vec<u8>>, StorageError>) {
    match t.get(key) {
        Ok(cur) => Ok(cur.map(|v| v.as_ref().to_vec())),
        Err(e) => Err(StorageError { raw: e }),
    }
}

/// Relies on sled::Tree::insert: sets the key to the value and returns the
/// previous committed bytes for the key, if any.
#[verifier::external_body]
pub(crate) fn raw_tree_insert(
    t: &sled::Tree,
    key: Vec<u8>,
    value: Vec<u8>,
) -> (r: Result<Option<Vec<u8>>, StorageError>) {
    match t.insert(key, value) {
        Ok(prev) => Ok(prev.map(|v| v.as_ref().to_vec())),
        Err(e) => Err(StorageError { raw: e }),
    }
}

/// Relies on sled::Tree::remove: removes the key and returns the previous
/// committed bytes for the key, if any.
#[verifier::external_body]
pub(crate) fn raw_tree_remove(
    t: &sled::Tree,
    key: Vec<u8>,
) -> (r: Result<Option<Vec<u8>>, StorageError>) {
    match t.remove(key) {
        Ok(prev) => Ok(prev.map(|v| v.as_ref().to_vec())),
        Err(e) => Err(StorageError { raw: e }),
    }
}

/// The outcome a closure must have produced for the runner to commit and
/// return this value.
pub open spec fn closure_committed<A, E>(a: A) -> Result<A, ConflictableTransactionError<E>> {
    Ok(a)
}

/// The outcome a closure must have produced for the runner to surface this
/// abort payload.
pub open spec fn closure_aborted<A, E>(e: E) -> Result<A, ConflictableTransactionError<E>> {
    Err(ConflictableTransactionError::Abort(e))
}

/// Relies on sled's transaction runner over one tree: per attempt it hands
/// the closure a fresh raw view; on conflict it retries; it commits and
/// returns `Ok(a)` only when the closure produced `Ok(a)` on the deciding
/// attempt, and surfaces an abort payload only as the closure produced it.
#[verifier::external_body]
pub(crate) fn raw_run_single<F, A, E>(tree: &sled::Tree, f: F) -> (r: Result<
    A,
    TransactionError<E>,
>) where F: Fn(&sled::transaction::TransactionalTree) -> Result<A, ConflictableTransactionError<E>>
    requires
        forall|v: &sled::transaction::TransactionalTree| #[trigger] call_requires(f, (v,)),
    ensures
        r matches Ok(a) ==> exists|v: &sled::transaction::TransactionalTree|
            call_ensures(f, (v,), closure_committed(a)),
        r matches Err(TransactionError::Abort(e)) ==> exists|
            v: &sled::transaction::TransactionalTree,
        | call_ensures(f, (v,), closure_aborted(e)),
{
    let out: sled::transaction::TransactionResult<A, E> = SledTransactional::<E>::transaction(
        &tree,
        |v: &sled::transaction::TransactionalTree| match f(v) {
            Ok(a) => Ok(a),
            Err(ConflictableTransactionError::Abort(e)) => Err(SledConflictable::Abort(e)),
            Err(ConflictableTransactionError::Conflict) => Err(SledConflictable::Conflict),
            Err(ConflictableTransactionError::Storage(s)) => Err(SledConflictable::Storage(s.raw)),
        },
    );
    match out {
        Ok(a) => Ok(a),
        Err(SledTransactionError::Abort(e)) => Err(TransactionError::Abort(e)),
        Err(SledTransactionError::Storage(s)) => Err(TransactionError::Storage(StorageError { raw: s })),
    }
}

/// Relies on sled's transaction runner over a pair of trees: both raw views
/// of an attempt belong to the same atomic transaction, position for
/// position; commit applies the writes of both views or, on abort or
/// failure, neither. The returned value and any abort payload are exactly
/// what the closure produced on the deciding attempt.
#[verifier::external_body]
pub(crate) fn raw_run_pair<F, A, E>(t0: &sled::Tree, t1: &sled::Tree, f: F) -> (r: Result<
    A,
    TransactionError<E>,
>) where
    F: Fn(
        &(sled::transaction::TransactionalTree, sled::transaction::TransactionalTree),
    ) -> Result<A, ConflictableTransactionError<E>>,

    requires
        forall|v: &(sled::transaction::TransactionalTree, sled::transaction::TransactionalTree)|
            #[trigger] call_requires(f, (v,)),
    ensures
        r matches Ok(a) ==> exists|
            v: &(sled::transaction::TransactionalTree, sled::transaction::TransactionalTree),
        | call_ensures(f, (v,), closure_committed(a)),
        r matches Err(TransactionError::Abort(e)) ==> exists|
            v: &(sled::transaction::TransactionalTree, sled::transaction::TransactionalTree),
        | call_ensures(f, (v,), closure_aborted(e)),
{
    let out: sled::transaction::TransactionResult<A, E> = SledTransactional::<E>::transaction(
        &(t0, t1),
        |v: &(sled::transaction::TransactionalTree, sled::transaction::TransactionalTree)| match f(v) {
            Ok(a) => Ok(a),
            Err(ConflictableTransactionError::Abort(e)) => Err(SledConflictable::Abort(e)),
            Err(ConflictableTransactionError::Conflict) => Err(SledConflictable::Conflict),
            Err(ConflictableTransactionError::Storage(s)) => Err(SledConflictable::Storage(s.raw)),
        },
    );
    match out {
        Ok(a) => Ok(a),
        Err(SledTransactionError::Abort(e)) => Err(TransactionError::Abort(e)),
        Err(SledTransactionError::Storage(s)) => Err(TransactionError::Storage(StorageError { raw: s })),
    }
}

} // verus!
