//! Typed handles to the engine's trees, and typed batches of writes.

use vstd::prelude::*;
use core::marker::PhantomData;
use crate::engine::{
    batch_writes, batch_writes_empty, raw_batch_insert, raw_batch_new, raw_batch_remove,
    raw_tree_get, raw_tree_insert, raw_tree_remove,
};
use crate::errors::StorageError;
use crate::kv::{decode_previous, KV};

verus! {

/// A typed handle to one raw tree of the engine.
///
/// `K` and `V` have no runtime representation; they fix, at compile time,
/// which encodings travel through this handle. The handle itself is only
/// ever read, to reach the raw tree.
pub struct TypedTree<K, V> {
    /// The raw engine tree this handle wraps.
    pub inner: sled::Tree,
    pub _key: PhantomData<K>,
    pub _value: PhantomData<V>,
}

impl<K: KV, V: KV> TypedTree<K, V> {
    /// Wraps a raw engine tree in a typed handle.
    pub fn new(inner: sled::Tree) -> (r: Self)
        ensures
            r.inner == inner,
    {
        TypedTree { inner, _key: PhantomData, _value: PhantomData }
    }

    /// Typed point lookup against committed state, outside any transaction.
    /// A present value is the decoding of the committed bytes for the key.
    pub fn get(&self, key: &K) -> (r: Result<Option<V>, StorageError>)
        ensures
            r matches Ok(Some(v)) ==> exists|b: Seq<u8>| v@ == V::spec_decoded(b),
    {
        match raw_tree_get(&self.inner, key.serialize()) {
            Ok(prev) => Ok(decode_previous::<V>(prev)),
            Err(e) => Err(e),
        }
    }

    /// Typed insert against committed state, outside any transaction;
    /// returns the previous value for the key, decoded, if one existed.
    pub fn insert(&self, key: &K, value: &V) -> (r: Result<Option<V>, StorageError>)
        ensures
            r matches Ok(Some(v)) ==> exists|b: Seq<u8>| v@ == V::spec_decoded(b),
    {
        match raw_tree_insert(&self.inner, key.serialize(), value.serialize()) {
            Ok(prev) => Ok(decode_previous::<V>(prev)),
            Err(e) => Err(e),
        }
    }

    /// Typed removal against committed state, outside any transaction;
    /// returns the removed value, decoded, if one existed.
    pub fn remove(&self, key: &K) -> (r: Result<Option<V>, StorageError>)
        ensures
            r matches Ok(Some(v)) ==> exists|b: Seq<u8>| v@ == V::spec_decoded(b),
    {
        match raw_tree_remove(&self.inner, key.serialize()) {
            Ok(prev) => Ok(decode_previous::<V>(prev)),
            Err(e) => Err(e),
        }
    }
}

/// A typed batch of writes, applied atomically within one attempt.
///
/// The engine stages at most one write per key; recording a second write of
/// the same key replaces the first. The model `writes()` maps each staged
/// key's encoding to `Some` encoded value, or to `None` for a removal.
pub struct TypedBatch<K, V> {
    /// The raw engine batch this typed batch fills.
    pub inner: sled::Batch,
    pub _key: PhantomData<K>,
    pub _value: PhantomData<V>,
}

impl<K: KV, V: KV> TypedBatch<K, V> {
    /// The staged writes, keyed by encoded key bytes.
    pub open spec fn writes(&self) -> Map<Seq<u8>, Option<Seq<u8>>> {
        batch_writes(self.inner)
    }

    /// A batch that stages nothing.
    pub fn new() -> (r: Self)
        ensures
            r.writes() == batch_writes_empty(),
    {
        TypedBatch { inner: raw_batch_new(), _key: PhantomData, _value: PhantomData }
    }

    /// Stages "set this key to this value", replacing any earlier staged
    /// write of the same key.
    pub fn insert(&mut self, key: &K, value: &V)
        ensures
            final(self).writes() == old(self).writes().insert(
                key.spec_serialize(),
                Some(value.spec_serialize()),
            ),
    {
        raw_batch_insert(&mut self.inner, key.serialize(), value.serialize());
    }

    /// Stages "remove this key", replacing any earlier staged write of the
    /// same key.
    pub fn remove(&mut self, key: &K)
        ensures
            final(self).writes() == old(self).writes().insert(key.spec_serialize(), None),
    {
        raw_batch_remove(&mut self.inner, key.serialize());
    }
}

} // verus!
