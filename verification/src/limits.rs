//! The limits that fjall sets on the keys and values it stores.
use crate::bounds::{encoded_bound, KeyBound};
use crate::codec::Encode;
use vstd::prelude::*;

verus! {

/// A key that fjall can look up: its length fits in a `u16`.
pub open spec fn key_fits(key: Seq<u8>) -> bool {
    key.len() < 0x10000
}

/// A key that fjall can store: not empty, and its length fits in a `u16`.
pub open spec fn storable_key(key: Seq<u8>) -> bool {
    0 < key.len() < 0x10000
}

/// A value that fjall can store: its length fits in a `u32`.
pub open spec fn storable_value(value: Seq<u8>) -> bool {
    value.len() <= u32::MAX
}

/// A bound whose key fjall can look up.
pub open spec fn bound_fits(bound: KeyBound<Seq<u8>>) -> bool {
    match bound {
        KeyBound::Included(key) => key_fits(key),
        KeyBound::Excluded(key) => key_fits(key),
        KeyBound::Unbounded => true,
    }
}

/// The encoding of the key, where there is one, is a key that fjall can look up.
pub open spec fn key_within_limit<K: Encode>(key: &K::Item) -> bool {
    K::spec_encode(key) matches Some(bytes) ==> key_fits(bytes)
}

/// The encoding of the key, where there is one, is a key that fjall can store.
pub open spec fn key_storable<K: Encode>(key: &K::Item) -> bool {
    K::spec_encode(key) matches Some(bytes) ==> storable_key(bytes)
}

/// The encoding of the value, where there is one, is a value that fjall can store.
pub open spec fn value_storable<V: Encode>(value: &V::Item) -> bool {
    V::spec_encode(value) matches Some(bytes) ==> storable_value(bytes)
}

/// The encoding of the bound, where there is one, is a bound that fjall can look up.
pub open spec fn bound_within_limit<K: Encode>(bound: KeyBound<&K::Item>) -> bool {
    encoded_bound::<K>(bound) matches Some(encoded) ==> bound_fits(encoded)
}

/// The bytes of a value that fjall found, if it found one.
pub open spec fn found_bytes(found: Option<Vec<u8>>) -> Option<Seq<u8>> {
    match found {
        Some(bytes) => Some(bytes@),
        None => None,
    }
}

} // verus!
