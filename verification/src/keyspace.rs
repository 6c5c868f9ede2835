//! Typed keyspaces.
use crate::bounds::{encode_range, encoded_bound, range_error, KeyBound};
use crate::codec::{Decode, Encode};
use crate::error::TypedError;
use crate::fjall_types::{iter_bounds, iter_prefix};
use crate::limits::{bound_within_limit, key_storable, key_within_limit, value_storable};
use crate::answers::{
    keyspace_contains_key_gave, keyspace_first_key_value_gave, keyspace_get_gave,
    keyspace_insert_gave, keyspace_iter_gave, keyspace_last_key_value_gave, keyspace_size_of_gave,
    lemma_keyspace_contains_key_gave, lemma_keyspace_first_key_value_gave,
    lemma_keyspace_get_gave, lemma_keyspace_insert_gave, lemma_keyspace_iter_gave,
    lemma_keyspace_last_key_value_gave, lemma_keyspace_size_of_gave,
};
use crate::outcome::{answer_result, fjall_outcome, lookup_outcome, lookup_result};
use crate::fjall_guard_of;
use crate::raw::{
    keyspace_clone, keyspace_contains_key, keyspace_first_key_value, keyspace_get,
    keyspace_insert, keyspace_iter, keyspace_last_key_value, keyspace_prefix, keyspace_range,
    keyspace_size_of,
};
use crate::{TypedGuard, TypedIter};
use core::convert::Infallible;
use core::marker::PhantomData;
use vstd::prelude::*;

verus! {

/// A fjall keyspace, held or borrowed.
pub(crate) enum KeyspaceHandle<'a> {
    Owned(fjall::Keyspace),
    Borrowed(&'a fjall::Keyspace),
}

impl<'a> KeyspaceHandle<'a> {
    /// The keyspace that the handle holds or borrows.
    pub(crate) open spec fn target(&self) -> fjall::Keyspace {
        match self {
            KeyspaceHandle::Owned(ks) => *ks,
            KeyspaceHandle::Borrowed(ks) => **ks,
        }
    }

    pub(crate) fn keyspace(&self) -> (r: &fjall::Keyspace)
        ensures
            *r == self.target(),
    {
        match self {
            KeyspaceHandle::Owned(ks) => ks,
            KeyspaceHandle::Borrowed(ks) => ks,
        }
    }
}

/// A typed keyspace. See [`fjall::Keyspace`] for what a keyspace is.
/// Unlike a `fjall::Keyspace`, it has a codec for its keys and one for its values.
pub struct TypedKeyspace<'a, Key, Value> {
    pub(crate) handle: KeyspaceHandle<'a>,
    pub(crate) codecs: PhantomData<(Key, Value)>,
}

impl<'a, Key, Value> TypedKeyspace<'a, Key, Value> {
    /// The fjall keyspace that this one types.
    pub closed spec fn fjall_keyspace(&self) -> fjall::Keyspace {
        self.handle.target()
    }

    /// Type a fjall keyspace.
    pub fn new(ks: fjall::Keyspace) -> (r: Self)
        ensures
            r.fjall_keyspace() == ks,
    {
        TypedKeyspace { handle: KeyspaceHandle::Owned(ks), codecs: PhantomData }
    }

    /// Type a borrowed fjall keyspace.
    pub(crate) fn borrowed(ks: &'a fjall::Keyspace) -> (r: Self)
        ensures
            r.fjall_keyspace() == *ks,
    {
        TypedKeyspace { handle: KeyspaceHandle::Borrowed(ks), codecs: PhantomData }
    }

    /// The fjall keyspace that this one types.
    pub fn inner(&self) -> (r: &fjall::Keyspace)
        ensures
            *r == self.fjall_keyspace(),
    {
        self.handle.keyspace()
    }

    /// Take a handle of its own to the keyspace, so that it no longer borrows the keyspace it
    /// was remapped from.
    pub fn to_owned(self) -> (r: TypedKeyspace<'static, Key, Value>)
        ensures
            r.fjall_keyspace() == self.fjall_keyspace(),
    {
        let ks = match self.handle {
            KeyspaceHandle::Owned(ks) => ks,
            KeyspaceHandle::Borrowed(ks) => keyspace_clone(ks),
        };
        TypedKeyspace::new(ks)
    }

    /// The same keyspace with another key codec.
    pub fn remap_key<NK>(&'a self) -> (r: TypedKeyspace<'a, NK, Value>)
        ensures
            r.fjall_keyspace() == self.fjall_keyspace(),
    {
        TypedKeyspace { handle: KeyspaceHandle::Borrowed(self.inner()), codecs: PhantomData }
    }

    /// The same keyspace with another value codec.
    pub fn remap_value<NV>(&'a self) -> (r: TypedKeyspace<'a, Key, NV>)
        ensures
            r.fjall_keyspace() == self.fjall_keyspace(),
    {
        TypedKeyspace { handle: KeyspaceHandle::Borrowed(self.inner()), codecs: PhantomData }
    }

    /// The same keyspace with another key codec and another value codec.
    pub fn remap_key_value<NK, NV>(&'a self) -> (r: TypedKeyspace<'a, NK, NV>)
        ensures
            r.fjall_keyspace() == self.fjall_keyspace(),
    {
        TypedKeyspace { handle: KeyspaceHandle::Borrowed(self.inner()), codecs: PhantomData }
    }

    /// Iterate over the whole keyspace, as [`fjall::Keyspace::iter`] does.
    pub fn iter(&self) -> (r: TypedIter<Key, Value>)
        ensures
            keyspace_iter_gave(self.fjall_keyspace(), r.fjall_iter()),
    {
        let ks = self.inner();
        let raw = keyspace_iter(ks);
        proof {
            lemma_keyspace_iter_gave(ks, raw);
        }
        TypedIter::new(raw)
    }

    /// The entry with the smallest key, as [`fjall::Keyspace::first_key_value`] gives it.
    pub fn first_key_value(&self) -> (r: Option<TypedGuard<Key, Value>>)
        ensures
            keyspace_first_key_value_gave(self.fjall_keyspace(), fjall_guard_of(r)),
    {
        let ks = self.inner();
        let raw = keyspace_first_key_value(ks);
        proof {
            lemma_keyspace_first_key_value_gave(ks, raw);
        }
        match raw {
            Some(guard) => Some(TypedGuard::new(guard)),
            None => None,
        }
    }

    /// The entry with the largest key, as [`fjall::Keyspace::last_key_value`] gives it.
    pub fn last_key_value(&self) -> (r: Option<TypedGuard<Key, Value>>)
        ensures
            keyspace_last_key_value_gave(self.fjall_keyspace(), fjall_guard_of(r)),
    {
        let ks = self.inner();
        let raw = keyspace_last_key_value(ks);
        proof {
            lemma_keyspace_last_key_value_gave(ks, raw);
        }
        match raw {
            Some(guard) => Some(TypedGuard::new(guard)),
            None => None,
        }
    }
}

impl<'a, Key: Encode, Value: Encode> TypedKeyspace<'a, Key, Value> {
    /// Insert the value under the key, as [`fjall::Keyspace::insert`] does with their encodings.
    /// Fails with the key codec's error when the key cannot be encoded, else with the value
    /// codec's error when the value cannot be encoded.
    pub fn insert(&self, key: &Key::Item, value: &Value::Item) -> (r: Result<
        (),
        TypedError<Key::Error, Value::Error>,
    >)
        requires
            key_storable::<Key>(key),
            Key::spec_encode(key) is Some ==> value_storable::<Value>(value),
        ensures
            r matches Err(TypedError::Key(_)) <==> Key::spec_encode(key) is None,
            r matches Err(TypedError::Value(_)) <==> Key::spec_encode(key) is Some
                && Value::spec_encode(value) is None,
            Key::spec_encode(key) matches Some(kb) ==> (Value::spec_encode(value) matches Some(vb)
                ==> exists|raw: Result<(), fjall::Error>| #[trigger]
                keyspace_insert_gave(self.fjall_keyspace(), kb, vb, raw) && answer_result(raw, r)),
    {
        let key = match Key::encode(key) {
            Ok(bytes) => bytes,
            Err(e) => return Err(TypedError::Key(e)),
        };
        let value = match Value::encode(value) {
            Ok(bytes) => bytes,
            Err(e) => return Err(TypedError::Value(e)),
        };
        let ks = self.inner();
        let ghost (gk, gv) = (key, value);
        let raw = keyspace_insert(ks, key, value);
        proof {
            lemma_keyspace_insert_gave(ks, gk, gv, raw);
        }
        fjall_outcome(raw)
    }
}

impl<'a, Key: Encode, Value: Decode> TypedKeyspace<'a, Key, Value> {
    /// The value under the key, as [`fjall::Keyspace::get`] finds it by the key's encoding.
    /// Fails with the key codec's error when the key cannot be encoded, and with the value
    /// codec's error when the bytes found do not hold a value.
    pub fn get(&self, key: &Key::Item) -> (r: Result<
        Option<Value::Item>,
        TypedError<Key::Error, Value::Error>,
    >)
        requires
            key_within_limit::<Key>(key),
        ensures
            r matches Err(TypedError::Key(_)) <==> Key::spec_encode(key) is None,
            r matches Ok(Some(v)) ==> exists|bytes: Seq<u8>| #[trigger] Value::decodes_to(bytes, v),
            r matches Err(TypedError::Value(_)) ==> exists|bytes: Seq<u8>|
                !#[trigger] Value::decodable(bytes),
            Key::spec_encode(key) matches Some(kb) ==> exists|raw: Result<Option<Vec<u8>>, fjall::Error>|
                #[trigger] keyspace_get_gave(self.fjall_keyspace(), kb, raw)
                && lookup_result::<Key::Error, Value>(raw, r),
    {
        let key = match Key::encode(key) {
            Ok(bytes) => bytes,
            Err(e) => return Err(TypedError::Key(e)),
        };
        let ks = self.inner();
        let key = key.as_slice();
        let raw = keyspace_get(ks, key);
        proof {
            lemma_keyspace_get_gave(ks, key, raw);
        }
        let ghost graw = raw;
        let r = lookup_outcome::<Key::Error, Value>(raw);
        let ghost gr = r;
        proof {
            if let Ok(Some(bytes)) = graw {
                if let Ok(Some(v)) = gr {
                    assert(Value::decodes_to(bytes@, v));
                }
                if let Err(TypedError::Value(_)) = gr {
                    assert(!Value::decodable(bytes@));
                }
            }
        }
        r
    }
}

impl<'a, Key: Encode, Value> TypedKeyspace<'a, Key, Value> {
    /// Whether the keyspace holds the key, as [`fjall::Keyspace::contains_key`] tells it by the
    /// key's encoding. Fails with the key codec's error when the key cannot be encoded.
    pub fn contains_key(&self, key: &Key::Item) -> (r: Result<bool, TypedError<Key::Error, Infallible>>)
        requires
            key_within_limit::<Key>(key),
        ensures
            r matches Err(TypedError::Key(_)) <==> Key::spec_encode(key) is None,
            Key::spec_encode(key) matches Some(kb) ==> exists|raw: Result<bool, fjall::Error>|
                #[trigger] keyspace_contains_key_gave(self.fjall_keyspace(), kb, raw)
                && answer_result(raw, r),
    {
        let key = match Key::encode(key) {
            Ok(bytes) => bytes,
            Err(e) => return Err(TypedError::Key(e)),
        };
        let ks = self.inner();
        let key = key.as_slice();
        let raw = keyspace_contains_key(ks, key);
        proof {
            lemma_keyspace_contains_key_gave(ks, key, raw);
        }
        fjall_outcome(raw)
    }

    /// The size of the value under the key, as [`fjall::Keyspace::size_of`] gives it by the
    /// key's encoding. Fails with the key codec's error when the key cannot be encoded.
    pub fn size_of(&self, key: &Key::Item) -> (r: Result<Option<u32>, TypedError<Key::Error, Infallible>>)
        requires
            key_within_limit::<Key>(key),
        ensures
            r matches Err(TypedError::Key(_)) <==> Key::spec_encode(key) is None,
            Key::spec_encode(key) matches Some(kb) ==> exists|raw: Result<Option<u32>, fjall::Error>|
                #[trigger] keyspace_size_of_gave(self.fjall_keyspace(), kb, raw)
                && answer_result(raw, r),
    {
        let key = match Key::encode(key) {
            Ok(bytes) => bytes,
            Err(e) => return Err(TypedError::Key(e)),
        };
        let ks = self.inner();
        let key = key.as_slice();
        let raw = keyspace_size_of(ks, key);
        proof {
            lemma_keyspace_size_of_gave(ks, key, raw);
        }
        fjall_outcome(raw)
    }

    /// Iterate over the keys between the two bounds, as [`fjall::Keyspace::range`] does between
    /// the bounds on their encodings (see [`encode_range`]). Fails with the key codec's error
    /// when a key of the bounds cannot be encoded.
    pub fn range(&self, start: KeyBound<&Key::Item>, end: KeyBound<&Key::Item>) -> (r: Result<
        TypedIter<Key, Value>,
        Key::Error,
    >)
        requires
            bound_within_limit::<Key>(start),
            bound_within_limit::<Key>(end),
        ensures
            r is Ok <==> encoded_bound::<Key>(start) is Some && encoded_bound::<Key>(end) is Some,
            r matches Ok(it) ==> encoded_bound::<Key>(start) == Some(iter_bounds(it.fjall_iter()).0)
                && encoded_bound::<Key>(end) == Some(iter_bounds(it.fjall_iter()).1),
            r matches Err(e) ==> range_error::<Key>(start, end, e),
    {
        let (start, end) = match encode_range::<Key>(start, end) {
            Ok(bounds) => bounds,
            Err(e) => return Err(e),
        };
        Ok(TypedIter::new(keyspace_range(self.inner(), start, end)))
    }

    /// Iterate over the keys whose encoding starts with the encoding of `prefix`, as
    /// [`fjall::Keyspace::prefix`] does. Fails with the key codec's error when the prefix cannot
    /// be encoded.
    pub fn prefix(&self, prefix: &Key::Item) -> (r: Result<TypedIter<Key, Value>, Key::Error>)
        requires
            key_within_limit::<Key>(prefix),
        ensures
            r is Ok <==> Key::spec_encode(prefix) is Some,
            r matches Ok(it) ==> Key::spec_encode(prefix) == Some(iter_prefix(it.fjall_iter())),
            r matches Err(e) ==> call_ensures(Key::encode, (prefix,), Err(e)),
    {
        let prefix = match Key::encode(prefix) {
            Ok(bytes) => bytes,
            Err(e) => return Err(e),
        };
        Ok(TypedIter::new(keyspace_prefix(self.inner(), prefix)))
    }
}

/// Law of [`TypedKeyspace::insert`]: a typed insert that succeeds is an insert by fjall of
/// exactly the key's encoding and the value's encoding, which fjall accepted. Whether the key was
/// already there makes no difference: the value is always handed to fjall's insert, which
/// overwrites.
pub proof fn law_insert_hands_encodings_to_fjall<'a, Key: Encode, Value: Encode>(
    keyspace: TypedKeyspace<'a, Key, Value>,
    key: &Key::Item,
    value: &Value::Item,
    r: Result<(), TypedError<Key::Error, Value::Error>>,
)
    requires
        r matches Err(TypedError::Key(_)) <==> Key::spec_encode(key) is None,
        r matches Err(TypedError::Value(_)) <==> Key::spec_encode(key) is Some
            && Value::spec_encode(value) is None,
        Key::spec_encode(key) matches Some(kb) ==> (Value::spec_encode(value) matches Some(vb)
            ==> exists|raw: Result<(), fjall::Error>| #[trigger]
            keyspace_insert_gave(keyspace.fjall_keyspace(), kb, vb, raw) && answer_result(raw, r)),
    ensures
        r is Ok ==> keyspace_insert_gave(
            keyspace.fjall_keyspace(),
            Key::spec_encode(key)->0,
            Value::spec_encode(value)->0,
            Ok(()),
        ),
        r matches Err(TypedError::Fjall(e)) ==> keyspace_insert_gave(
            keyspace.fjall_keyspace(),
            Key::spec_encode(key)->0,
            Value::spec_encode(value)->0,
            Err(e),
        ),
{
}

/// Law of [`TypedKeyspace::get`]: a typed lookup asks fjall about exactly the key's encoding.
/// It gives nothing only where fjall's `get` of those bytes found nothing, and a value only where
/// fjall found under those very bytes bytes that decode to it.
pub proof fn law_get_looks_up_the_encoding<'a, Key: Encode, Value: Decode>(
    keyspace: TypedKeyspace<'a, Key, Value>,
    key: &Key::Item,
    r: Result<Option<Value::Item>, TypedError<Key::Error, Value::Error>>,
)
    requires
        r matches Err(TypedError::Key(_)) <==> Key::spec_encode(key) is None,
        Key::spec_encode(key) matches Some(kb) ==> exists|raw: Result<Option<Vec<u8>>, fjall::Error>|
            #[trigger] keyspace_get_gave(keyspace.fjall_keyspace(), kb, raw)
            && lookup_result::<Key::Error, Value>(raw, r),
    ensures
        r matches Ok(None) ==> keyspace_get_gave(
            keyspace.fjall_keyspace(),
            Key::spec_encode(key)->0,
            Ok(None),
        ),
        r matches Ok(Some(v)) ==> exists|bytes: Vec<u8>| #[trigger] keyspace_get_gave(
            keyspace.fjall_keyspace(),
            Key::spec_encode(key)->0,
            Ok(Some(bytes)),
        ) && Value::decodes_to(bytes@, v),
{
    if r is Ok {
        let kb = Key::spec_encode(key)->0;
        let raw = choose|raw: Result<Option<Vec<u8>>, fjall::Error>|
            #[trigger] keyspace_get_gave(keyspace.fjall_keyspace(), kb, raw)
            && lookup_result::<Key::Error, Value>(raw, r);
        if let Ok(Some(bytes)) = raw {
            assert(keyspace_get_gave(keyspace.fjall_keyspace(), kb, Ok(Some(bytes))));
        }
    }
}

/// Law of [`TypedKeyspace::contains_key`]: the typed answer is fjall's `contains_key` of exactly
/// the key's encoding, so a key stored with an empty value is present like any other.
pub proof fn law_contains_key_is_fjalls_answer<'a, Key: Encode, Value>(
    keyspace: TypedKeyspace<'a, Key, Value>,
    key: &Key::Item,
    r: Result<bool, TypedError<Key::Error, Infallible>>,
)
    requires
        r matches Err(TypedError::Key(_)) <==> Key::spec_encode(key) is None,
        Key::spec_encode(key) matches Some(kb) ==> exists|raw: Result<bool, fjall::Error>|
            #[trigger] keyspace_contains_key_gave(keyspace.fjall_keyspace(), kb, raw)
            && answer_result(raw, r),
    ensures
        r matches Ok(b) ==> keyspace_contains_key_gave(
            keyspace.fjall_keyspace(),
            Key::spec_encode(key)->0,
            Ok(b),
        ),
{
}

impl<'a, Key, Value> Clone for TypedKeyspace<'a, Key, Value> {
    /// Another typed keyspace over the same fjall keyspace.
    fn clone(&self) -> (r: Self)
        ensures
            r.fjall_keyspace() == self.fjall_keyspace(),
    {
        let handle = match &self.handle {
            KeyspaceHandle::Owned(ks) => KeyspaceHandle::Owned(keyspace_clone(ks)),
            KeyspaceHandle::Borrowed(ks) => KeyspaceHandle::Borrowed(*ks),
        };
        TypedKeyspace { handle, codecs: PhantomData }
    }
}

impl<'a, Key, Value> core::ops::Deref for TypedKeyspace<'a, Key, Value> {
    type Target = fjall::Keyspace;

    fn deref(&self) -> (r: &fjall::Keyspace)
        ensures
            *r == self.fjall_keyspace(),
    {
        self.inner()
    }
}

} // verus!
