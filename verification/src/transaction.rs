//! Typed per-attempt views and the transaction entry point.
//!
//! A transaction runs a caller-supplied closure against typed views of one
//! or more trees. The engine's runner owns the retry loop: it hands the
//! closure a fresh raw view on every attempt and alone decides between
//! retrying and finishing. This layer only wraps each raw view, position
//! for position, and forwards the closure's outcome unchanged — which is
//! what the contracts on [`Transactional::transaction`] state: a committed
//! value or an abort payload is exactly one the closure produced.

use vstd::prelude::*;
use core::marker::PhantomData;
use crate::engine::{
    closure_aborted, closure_committed, raw_run_pair, raw_run_single, raw_view_apply_batch,
    raw_view_flush, raw_view_generate_id, raw_view_get, raw_view_insert, raw_view_remove,
};
use crate::errors::{ConflictableTransactionError, StorageError, TransactionError, UnabortableError};
use crate::kv::{decode_previous, KV};
use crate::tree::{TypedBatch, TypedTree};

verus! {

/// An ephemeral typed view of one raw tree, valid for exactly one attempt
/// of one transaction. It borrows the engine's per-attempt view and cannot
/// outlive the closure invocation that received it.
pub struct TypedTransactionalTree<'a, K, V> {
    /// The engine's per-attempt view this typed view reads and writes.
    pub inner: &'a sled::transaction::TransactionalTree,
    pub _key: PhantomData<K>,
    pub _value: PhantomData<V>,
}

impl<'a, K: KV, V: KV> TypedTransactionalTree<'a, K, V> {
    /// Sets the key to the value within this attempt; returns the
    /// previously visible value, decoded, if one existed. A failure is the
    /// engine's own signal and must be propagated upward unchanged.
    pub fn insert(&self, key: &K, value: &V) -> (r: Result<Option<V>, UnabortableError>)
        ensures
            r matches Ok(Some(prev)) ==> exists|b: Seq<u8>| prev@ == V::spec_decoded(b),
    {
        match raw_view_insert(self.inner, key.serialize(), value.serialize()) {
            Ok(prev) => Ok(decode_previous::<V>(prev)),
            Err(e) => Err(e),
        }
    }

    /// Removes the key within this attempt; returns the removed value,
    /// decoded, if one existed.
    pub fn remove(&self, key: &K) -> (r: Result<Option<V>, UnabortableError>)
        ensures
            r matches Ok(Some(prev)) ==> exists|b: Seq<u8>| prev@ == V::spec_decoded(b),
    {
        match raw_view_remove(self.inner, key.serialize()) {
            Ok(prev) => Ok(decode_previous::<V>(prev)),
            Err(e) => Err(e),
        }
    }

    /// Looks the key up in this attempt's view; returns the visible value,
    /// decoded, if one exists.
    pub fn get(&self, key: &K) -> (r: Result<Option<V>, UnabortableError>)
        ensures
            r matches Ok(Some(v)) ==> exists|b: Seq<u8>| v@ == V::spec_decoded(b),
    {
        match raw_view_get(self.inner, key.serialize()) {
            Ok(cur) => Ok(decode_previous::<V>(cur)),
            Err(e) => Err(e),
        }
    }

    /// Applies every staged write of the batch within this attempt.
    pub fn apply_batch(&self, batch: &TypedBatch<K, V>) -> (r: Result<(), UnabortableError>) {
        raw_view_apply_batch(self.inner, &batch.inner)
    }

    /// Asks that a successful commit of this transaction also flush to
    /// disk. Side-effecting only; the logical outcome is unchanged.
    pub fn flush(&self) {
        raw_view_flush(self.inner)
    }

    /// Asks the engine for a fresh monotonic identifier, usable for keys
    /// generated during the transaction.
    pub fn generate_id(&self) -> (r: Result<u64, StorageError>) {
        raw_view_generate_id(self.inner)
    }
}

/// View construction: builds the typed view shape of one arity from the
/// engine's raw per-attempt view shape of the same arity, preserving
/// position. Implemented once per supported arity, because the engine's raw
/// view shape is itself arity-specific.
pub trait TransactionalTrees<'a>: Sized {
    /// The engine's raw per-attempt view shape for this arity.
    type Raw;

    /// The typed view wraps exactly this raw view, position for position.
    spec fn corresponds(self, raw: &'a Self::Raw) -> bool;

    /// Wraps the raw per-attempt view in the typed view shape, by
    /// reference and position for position.
    fn from_sled_view(raw: &'a Self::Raw) -> (r: Self)
        ensures
            r.corresponds(raw),
    ;
}

impl<'a, K: KV, V: KV> TransactionalTrees<'a> for TypedTransactionalTree<'a, K, V> {
    type Raw = sled::transaction::TransactionalTree;

    open spec fn corresponds(self, raw: &'a Self::Raw) -> bool {
        *self.inner == *raw
    }

    fn from_sled_view(raw: &'a Self::Raw) -> (r: Self) {
        TypedTransactionalTree { inner: raw, _key: PhantomData, _value: PhantomData }
    }
}

impl<'a, K1: KV, V1: KV, K2: KV, V2: KV> TransactionalTrees<'a> for (
    TypedTransactionalTree<'a, K1, V1>,
    TypedTransactionalTree<'a, K2, V2>,
) {
    type Raw = (sled::transaction::TransactionalTree, sled::transaction::TransactionalTree);

    /// Position for position: the first typed view wraps the first raw
    /// view, and the second the second, never crosswise.
    open spec fn corresponds(self, raw: &'a Self::Raw) -> bool {
        *self.0.inner == raw.0 && *self.1.inner == raw.1
    }

    fn from_sled_view(raw: &'a Self::Raw) -> (r: Self) {
        (
            TypedTransactionalTree { inner: &raw.0, _key: PhantomData, _value: PhantomData },
            TypedTransactionalTree { inner: &raw.1, _key: PhantomData, _value: PhantomData },
        )
    }
}

/// A shape that may be transacted on: one typed tree, or a tuple of typed
/// trees, one implementation per supported arity. The entry points that run
/// the closure are [`TypedTree::transaction`] for one tree and
/// [`transaction_pair`] for two: Verus cannot yet state a closure contract
/// on a trait method whose argument type varies per implementation, so the
/// trait carries the raw-handle extraction only.
pub trait Transactional<E>: Sized {
    /// The raw handle shape matching this arity.
    type Inner;

    /// The raw handles are exactly those of the typed trees transacted on,
    /// in the same order.
    spec fn owns_inner(self, inner: Self::Inner) -> bool;

    /// Extracts the raw tree handles, in the order the typed trees were
    /// supplied.
    fn get_inner(&self) -> (r: Self::Inner)
        ensures
            self.owns_inner(r),
    ;
}

impl<'t, K: KV, V: KV, E> Transactional<E> for &'t TypedTree<K, V> {
    type Inner = &'t sled::Tree;

    open spec fn owns_inner(self, inner: &'t sled::Tree) -> bool {
        *inner == self.inner
    }

    fn get_inner(&self) -> (r: &'t sled::Tree) {
        &self.inner
    }
}

impl<'t, K1: KV, V1: KV, K2: KV, V2: KV, E> Transactional<E> for (
    &'t TypedTree<K1, V1>,
    &'t TypedTree<K2, V2>,
) {
    type Inner = (&'t sled::Tree, &'t sled::Tree);

    open spec fn owns_inner(self, inner: (&'t sled::Tree, &'t sled::Tree)) -> bool {
        *inner.0 == self.0.inner && *inner.1 == self.1.inner
    }

    fn get_inner(&self) -> (r: (&'t sled::Tree, &'t sled::Tree)) {
        (&self.0.inner, &self.1.inner)
    }
}

impl<K: KV, V: KV> TypedTree<K, V> {
    /// Runs a transaction over this tree: the engine's runner may invoke
    /// the closure once per attempt and retries on conflict; this layer
    /// never decides to retry and never reuses a view across attempts. A
    /// committed value or a surfaced abort payload is exactly one the
    /// closure produced on the deciding attempt; retries are invisible.
    pub fn transaction<E, F, A>(&self, f: F) -> (r: Result<A, TransactionError<E>>) where
        F: for<'v> Fn(TypedTransactionalTree<'v, K, V>) -> Result<
            A,
            ConflictableTransactionError<E>,
        >,

        requires
            forall|tv: TypedTransactionalTree<'static, K, V>| #[trigger] call_requires(f, (tv,)),
        ensures
            r matches Ok(a) ==> exists|tv: TypedTransactionalTree<'static, K, V>| call_ensures(
                f,
                (tv,),
                closure_committed(a),
            ),
            r matches Err(TransactionError::Abort(e)) ==> exists|
                tv: TypedTransactionalTree<'static, K, V>,
            | call_ensures(f, (tv,), closure_aborted(e)),
    {
        let fsnap: Ghost<F> = Ghost(f);
        let g = |raw: &sled::transaction::TransactionalTree| -> (out: Result<
            A,
            ConflictableTransactionError<E>,
        >)
            requires
                forall|tv: TypedTransactionalTree<'static, K, V>| #[trigger] call_requires(
                    fsnap@,
                    (tv,),
                ),
            ensures
                exists|tv: TypedTransactionalTree<'static, K, V>| call_ensures(fsnap@, (tv,), out),
            {
                f(TransactionalTrees::from_sled_view(raw))
            };
        raw_run_single(&self.inner, g)
    }
}

/// Runs one atomic transaction over two typed trees, which must belong to
/// the same database. The closure receives a pair of typed views in the
/// order the trees were supplied, position for position; both trees' writes
/// commit together or not at all, as the engine's runner decides. A
/// committed value or a surfaced abort payload is exactly one the closure
/// produced on the deciding attempt.
pub fn transaction_pair<K1, V1, K2, V2, E, F, A>(
    trees: (&TypedTree<K1, V1>, &TypedTree<K2, V2>),
    f: F,
) -> (r: Result<A, TransactionError<E>>) where
    K1: KV,
    V1: KV,
    K2: KV,
    V2: KV,
    F: for<'v> Fn(
        (TypedTransactionalTree<'v, K1, V1>, TypedTransactionalTree<'v, K2, V2>),
    ) -> Result<A, ConflictableTransactionError<E>>,

    requires
        forall|
            tv: (TypedTransactionalTree<'static, K1, V1>, TypedTransactionalTree<'static, K2, V2>),
        | #[trigger] call_requires(f, (tv,)),
    ensures
        r matches Ok(a) ==> exists|
            tv: (TypedTransactionalTree<'static, K1, V1>, TypedTransactionalTree<'static, K2, V2>),
        | call_ensures(f, (tv,), closure_committed(a)),
        r matches Err(TransactionError::Abort(e)) ==> exists|
            tv: (TypedTransactionalTree<'static, K1, V1>, TypedTransactionalTree<'static, K2, V2>),
        | call_ensures(f, (tv,), closure_aborted(e)),
{
    let fsnap: Ghost<F> = Ghost(f);
    let g = |raw: &(sled::transaction::TransactionalTree, sled::transaction::TransactionalTree)| -> (out: Result<
        A,
        ConflictableTransactionError<E>,
    >)
        requires
            forall|
                tv: (TypedTransactionalTree<'static, K1, V1>, TypedTransactionalTree<
                    'static,
                    K2,
                    V2,
                >),
            | #[trigger] call_requires(fsnap@, (tv,)),
        ensures
            exists|
                tv: (TypedTransactionalTree<'static, K1, V1>, TypedTransactionalTree<
                    'static,
                    K2,
                    V2,
                >),
            | call_ensures(fsnap@, (tv,), out),
        {
            f(TransactionalTrees::from_sled_view(raw))
        };
    raw_run_pair(&trees.0.inner, &trees.1.inner, g)
}

} // verus!
