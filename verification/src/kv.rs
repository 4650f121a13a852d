//! The storable capability: a contract that key and value types satisfy so
//! that the typed layer can persist them in the byte-oriented engine.
//!
//! Every implementation fixes a canonical byte encoding, described by the
//! spec-level functions `spec_serialize` and `spec_decoded`, and proves that
//! decoding a value's own encoding recovers the value (its abstract view).

use vstd::prelude::*;
use vstd::bytes::{
    lemma_auto_spec_u64_to_from_le_bytes, spec_u64_from_le_bytes, spec_u64_to_le_bytes,
    u64_from_le_bytes, u64_to_le_bytes,
};
use vstd::slice::slice_to_vec;
use vstd::utf8::{
    decode_utf8, encode_utf8, encode_utf8_decode_utf8, encode_utf8_valid_utf8, valid_utf8,
};

verus! {

/// A type that can be stored in a typed tree.
///
/// Serialization is total and deterministic, and a value is recovered from
/// its own encoding: `spec_decoded(spec_serialize(v)) == v@`. Decoding is
/// total as well; bytes that no supported value produces decode to an
/// arbitrary but fixed default, since a storable contract violation is a
/// caller defect that this layer does not detect.
pub trait KV: View + Sized {
    /// The canonical byte encoding of this value.
    spec fn spec_serialize(&self) -> Seq<u8>;

    /// The abstract value that a byte sequence decodes to.
    spec fn spec_decoded(bytes: Seq<u8>) -> Self::V;

    /// Decoding any value's own encoding yields that value back.
    proof fn lemma_round_trip(&self)
        ensures
            Self::spec_decoded(self.spec_serialize()) == self@,
    ;

    fn serialize(&self) -> (r: Vec<u8>)
        ensures
            r@ == self.spec_serialize(),
    ;

    fn deserialize(bytes: &[u8]) -> (r: Self)
        ensures
            r@ == Self::spec_decoded(bytes@),
    ;
}

/// Unsigned 64-bit integers are stored as their 8 little-endian bytes.
impl KV for u64 {
    open spec fn spec_serialize(&self) -> Seq<u8> {
        spec_u64_to_le_bytes(*self)
    }

    open spec fn spec_decoded(bytes: Seq<u8>) -> u64 {
        if bytes.len() == 8 {
            spec_u64_from_le_bytes(bytes)
        } else {
            0
        }
    }

    proof fn lemma_round_trip(&self) {
        lemma_auto_spec_u64_to_from_le_bytes();
    }

    fn serialize(&self) -> (r: Vec<u8>) {
        u64_to_le_bytes(*self)
    }

    fn deserialize(bytes: &[u8]) -> (r: u64) {
        if bytes.len() == 8 {
            u64_from_le_bytes(bytes)
        } else {
            0
        }
    }
}

/// Relies on str::from_utf8: it accepts exactly the valid UTF-8 byte
/// sequences, and the accepted string is the one those bytes encode.
#[verifier::external_body]
fn str_from_utf8(bytes: &[u8]) -> (r: Option<&str>)
    ensures
        r is Some <==> valid_utf8(bytes@),
        r matches Some(s) ==> s@ == decode_utf8(bytes@),
{
    core::str::from_utf8(bytes).ok()
}

/// Strings are stored as their UTF-8 bytes. Bytes that are not valid UTF-8
/// decode to the empty string.
impl KV for String {
    open spec fn spec_serialize(&self) -> Seq<u8> {
        encode_utf8(self@)
    }

    open spec fn spec_decoded(bytes: Seq<u8>) -> Seq<char> {
        if valid_utf8(bytes) {
            decode_utf8(bytes)
        } else {
            Seq::empty()
        }
    }

    proof fn lemma_round_trip(&self) {
        encode_utf8_valid_utf8(self@);
        encode_utf8_decode_utf8(self@);
    }

    fn serialize(&self) -> (r: Vec<u8>) {
        slice_to_vec(self.as_str().as_bytes())
    }

    fn deserialize(bytes: &[u8]) -> (r: String) {
        match str_from_utf8(bytes) {
            Some(s) => s.to_owned(),
            None => String::new(),
        }
    }
}

/// Byte vectors are stored as themselves.
impl KV for Vec<u8> {
    open spec fn spec_serialize(&self) -> Seq<u8> {
        self@
    }

    open spec fn spec_decoded(bytes: Seq<u8>) -> Seq<u8> {
        bytes
    }

    proof fn lemma_round_trip(&self) {
    }

    fn serialize(&self) -> (r: Vec<u8>) {
        slice_to_vec(self.as_slice())
    }

    fn deserialize(bytes: &[u8]) -> (r: Vec<u8>) {
        slice_to_vec(bytes)
    }
}

/// Decodes the optional previous bytes handed back by a raw engine
/// operation into a typed value. This is the whole typed-versus-raw
/// boundary for results: present bytes decode, absence stays absence.
pub fn decode_previous<V: KV>(raw: Option<Vec<u8>>) -> (r: Option<V>)
    ensures
        r is Some <==> raw is Some,
        raw matches Some(b) ==> (r matches Some(v) && v@ == V::spec_decoded(b@)),
{
    match raw {
        Some(b) => Some(V::deserialize(b.as_slice())),
        None => None,
    }
}

/// Round trip: for every storable value, deserializing its serialization
/// yields the value back (stated over the type's abstract view).
pub fn round_trip<T: KV>(v: &T) -> (r: T)
    ensures
        r@ == v@,
{
    let bytes = v.serialize();
    proof {
        v.lemma_round_trip();
    }
    T::deserialize(bytes.as_slice())
}

} // verus!
