//! Typed keyspaces on top of the fjall key-value store.
//!
//! A keyspace is typed by two codecs, one for its keys and one for its values.
//! A codec describes how an item is laid out as bytes on disk; the library
//! encodes keys and values on the way in and decodes them on the way out.
pub mod answers;
mod bounds;
pub mod codec;
mod error;
mod fjall_types;
mod keyspace;
pub mod limits;
mod optimistic_tx_keyspace;
mod optimistic_write_tx;
mod outcome;
mod raw;
mod readable;

pub use bounds::{bound_error, encode_bound, encode_range, encoded_bound, range_error, KeyBound};
pub use error::TypedError;
pub use fjall_types::{
    iter_bounds, iter_prefix, single_writer_writes, tx_durability, tx_inner_keyspace, tx_writes,
};
pub use keyspace::{
    law_contains_key_is_fjalls_answer, law_get_looks_up_the_encoding,
    law_insert_hands_encodings_to_fjall, TypedKeyspace,
};
pub use optimistic_tx_keyspace::{
    law_first_key_value_is_fjalls_first, law_last_key_value_is_fjalls_last,
    TypedOptimisticTxKeyspace,
};
pub use optimistic_write_tx::{
    lemma_tx_get_after_insert, lemma_tx_get_after_remove, lemma_tx_take_after_insert, reads_own_write,
    TypedOptimisticWriteTx,
};
pub use readable::{
    law_reader_first_key_value_is_its_first, law_reader_last_key_value_is_its_last,
    law_snapshot_last_key_value_is_fjalls_last, TypedReadable,
};
pub use outcome::{
    answer_result, fjall_outcome, found_outcome, key_outcome, key_result, lookup_outcome,
    lookup_result, pair_outcome, pair_result, value_outcome, value_result,
};

use crate::answers::{
    guard_into_inner_gave, guard_key_gave, guard_size_gave, guard_value_gave,
    lemma_guard_into_inner_gave, lemma_guard_key_gave, lemma_guard_size_gave,
    lemma_guard_value_gave,
};
use crate::codec::Decode;
use crate::raw::{guard_into_inner, guard_key, guard_size, guard_value, iter_next, iter_next_back};
use core::convert::Infallible;
use core::marker::PhantomData;
use vstd::prelude::*;

verus! {

/// A typed entry of a keyspace. See [`fjall::Guard`].
pub struct TypedGuard<Key, Value>(fjall::Guard, PhantomData<(Key, Value)>);

/// The fjall entry of a typed entry, if there is one.
pub open spec fn fjall_guard_of<Key, Value>(guard: Option<TypedGuard<Key, Value>>) -> Option<fjall::Guard> {
    match guard {
        Some(g) => Some(g.fjall_guard()),
        None => None,
    }
}

impl<Key, Value> TypedGuard<Key, Value> {
    /// The fjall entry that this one types.
    pub closed spec fn fjall_guard(&self) -> fjall::Guard {
        self.0
    }

    pub(crate) fn new(guard: fjall::Guard) -> (r: Self)
        ensures
            r.fjall_guard() == guard,
    {
        TypedGuard(guard, PhantomData)
    }

    /// The same entry with another key codec.
    pub fn remap_key_type<NKey>(self) -> (r: TypedGuard<NKey, Value>)
        ensures
            r.fjall_guard() == self.fjall_guard(),
    {
        TypedGuard(self.0, PhantomData)
    }

    /// The same entry with another value codec.
    pub fn remap_value_type<NValue>(self) -> (r: TypedGuard<Key, NValue>)
        ensures
            r.fjall_guard() == self.fjall_guard(),
    {
        TypedGuard(self.0, PhantomData)
    }

    /// The same entry with another key codec and another value codec.
    pub fn remap_types<NKey, NValue>(self) -> (r: TypedGuard<NKey, NValue>)
        ensures
            r.fjall_guard() == self.fjall_guard(),
    {
        TypedGuard(self.0, PhantomData)
    }

    /// The size of the value, as [`fjall::Guard::size`] gives it.
    pub fn size(self) -> (r: Result<u32, fjall::Error>)
        ensures
            guard_size_gave(self.fjall_guard(), r),
    {
        let raw = guard_size(self.0);
        proof {
            lemma_guard_size_gave(self.0, raw);
        }
        raw
    }
}

impl<Key: Decode, Value> TypedGuard<Key, Value> {
    /// The key of the entry, decoded from what [`fjall::Guard::key`] gives. Fails with the key
    /// codec's error when the bytes do not hold a key.
    pub fn key(self) -> (r: Result<Key::Item, TypedError<Key::Error, Infallible>>)
        ensures
            r matches Ok(k) ==> exists|bytes: Seq<u8>| #[trigger] Key::decodes_to(bytes, k),
            !(r matches Err(TypedError::Value(_))),
            exists|raw: Result<Vec<u8>, fjall::Error>| #[trigger] guard_key_gave(self.fjall_guard(), raw)
                && key_result::<Key>(raw, r),
    {
        let raw = guard_key(self.0);
        proof {
            lemma_guard_key_gave(self.0, raw);
        }
        let ghost graw = raw;
        let r = key_outcome::<Key>(raw);
        let ghost gr = r;
        proof {
            if let Ok(bytes) = graw {
                if let Ok(k) = gr {
                    assert(Key::decodes_to(bytes@, k));
                }
            }
            assert(guard_key_gave(self.fjall_guard(), graw));
            assert(key_result::<Key>(graw, gr));
        }
        r
    }
}

impl<Key, Value: Decode> TypedGuard<Key, Value> {
    /// The value of the entry, decoded from what [`fjall::Guard::value`] gives. Fails with the
    /// value codec's error when the bytes do not hold a value.
    pub fn value(self) -> (r: Result<Value::Item, TypedError<Infallible, Value::Error>>)
        ensures
            r matches Ok(v) ==> exists|bytes: Seq<u8>| #[trigger] Value::decodes_to(bytes, v),
            !(r matches Err(TypedError::Key(_))),
            exists|raw: Result<Vec<u8>, fjall::Error>| #[trigger] guard_value_gave(self.fjall_guard(), raw)
                && value_result::<Value>(raw, r),
    {
        let raw = guard_value(self.0);
        proof {
            lemma_guard_value_gave(self.0, raw);
        }
        let ghost graw = raw;
        let r = value_outcome::<Value>(raw);
        let ghost gr = r;
        proof {
            if let Ok(bytes) = graw {
                if let Ok(v) = gr {
                    assert(Value::decodes_to(bytes@, v));
                }
            }
            assert(guard_value_gave(self.fjall_guard(), graw));
            assert(value_result::<Value>(graw, gr));
        }
        r
    }
}

impl<Key: Decode, Value: Decode> TypedGuard<Key, Value> {
    /// The key and the value of the entry, decoded from what [`fjall::Guard::into_inner`]
    /// gives; the key is decoded first.
    pub fn into_inner(self) -> (r: Result<(Key::Item, Value::Item), TypedError<Key::Error, Value::Error>>)
        ensures
            r matches Ok((k, v)) ==> (exists|bytes: Seq<u8>| #[trigger] Key::decodes_to(bytes, k))
                && (exists|bytes: Seq<u8>| #[trigger] Value::decodes_to(bytes, v)),
            r matches Err(TypedError::Key(_)) ==> exists|bytes: Seq<u8>|
                !#[trigger] Key::decodable(bytes),
            r matches Err(TypedError::Value(_)) ==> exists|bytes: Seq<u8>|
                !#[trigger] Value::decodable(bytes),
            exists|raw: Result<(Vec<u8>, Vec<u8>), fjall::Error>| #[trigger] guard_into_inner_gave(
                self.fjall_guard(),
                raw,
            ) && pair_result::<Key, Value>(raw, r),
    {
        let raw = guard_into_inner(self.0);
        proof {
            lemma_guard_into_inner_gave(self.0, raw);
        }
        let ghost graw = raw;
        let r = pair_outcome::<Key, Value>(raw);
        let ghost gr = r;
        proof {
            if let Ok((kb, vb)) = graw {
                if let Ok((k, v)) = gr {
                    assert(Key::decodes_to(kb@, k));
                    assert(Value::decodes_to(vb@, v));
                }
                if let Err(TypedError::Key(_)) = gr {
                    assert(!Key::decodable(kb@));
                }
                if let Err(TypedError::Value(_)) = gr {
                    assert(!Value::decodable(vb@));
                }
            }
            assert(guard_into_inner_gave(self.fjall_guard(), graw));
            assert(pair_result::<Key, Value>(graw, gr));
        }
        r
    }
}

/// A typed iterator over the entries of a keyspace. See [`fjall::Iter`].
pub struct TypedIter<Key, Value>(fjall::Iter, PhantomData<(Key, Value)>);

impl<Key, Value> TypedIter<Key, Value> {
    /// The fjall iterator that this one types.
    pub closed spec fn fjall_iter(&self) -> fjall::Iter {
        self.0
    }

    pub(crate) fn new(iter: fjall::Iter) -> (r: Self)
        ensures
            r.fjall_iter() == iter,
    {
        TypedIter(iter, PhantomData)
    }

    /// The same iterator with another key codec.
    pub fn remap_key_type<NKey>(self) -> (r: TypedIter<NKey, Value>)
        ensures
            r.fjall_iter() == self.fjall_iter(),
    {
        TypedIter(self.0, PhantomData)
    }

    /// The same iterator with another value codec.
    pub fn remap_value_type<NValue>(self) -> (r: TypedIter<Key, NValue>)
        ensures
            r.fjall_iter() == self.fjall_iter(),
    {
        TypedIter(self.0, PhantomData)
    }

    /// The same iterator with another key codec and another value codec.
    pub fn remap_types<NKey, NValue>(self) -> (r: TypedIter<NKey, NValue>)
        ensures
            r.fjall_iter() == self.fjall_iter(),
    {
        TypedIter(self.0, PhantomData)
    }

    /// The next entry from the front, as fjall's iterator gives it.
    pub fn next(&mut self) -> Option<TypedGuard<Key, Value>> {
        match iter_next(&mut self.0) {
            Some(guard) => Some(TypedGuard::new(guard)),
            None => None,
        }
    }

    /// The next entry from the back, as fjall's iterator gives it.
    pub fn next_back(&mut self) -> Option<TypedGuard<Key, Value>> {
        match iter_next_back(&mut self.0) {
            Some(guard) => Some(TypedGuard::new(guard)),
            None => None,
        }
    }
}

} // verus!
