//! Typed keyspaces of an optimistic transactional database.
use crate::codec::{Decode, Encode};
use crate::error::TypedError;
use crate::fjall_types::tx_inner_keyspace;
use crate::limits::{key_storable, key_within_limit, value_storable};
use crate::keyspace::TypedKeyspace;
use crate::answers::{
    tx_keyspace_insert_gave,
    tx_keyspace_contains_key_gave,
    tx_keyspace_size_of_gave,
    tx_keyspace_remove_gave,
    tx_keyspace_first_key_value_gave,
    tx_keyspace_last_key_value_gave,
    tx_keyspace_get_gave,
    tx_keyspace_take_gave,
    lemma_tx_keyspace_insert_gave,
    lemma_tx_keyspace_contains_key_gave,
    lemma_tx_keyspace_size_of_gave,
    lemma_tx_keyspace_remove_gave,
    lemma_tx_keyspace_first_key_value_gave,
    lemma_tx_keyspace_last_key_value_gave,
    lemma_tx_keyspace_get_gave,
    lemma_tx_keyspace_take_gave,
};
use crate::outcome::{answer_result, fjall_outcome, lookup_outcome, lookup_result};
use crate::fjall_guard_of;
use crate::raw::{
    tx_keyspace_clone, tx_keyspace_contains_key, tx_keyspace_first_key_value, tx_keyspace_get,
    tx_keyspace_inner, tx_keyspace_insert, tx_keyspace_last_key_value, tx_keyspace_remove,
    tx_keyspace_size_of, tx_keyspace_take,
};
use crate::TypedGuard;
use core::convert::Infallible;
use core::marker::PhantomData;
use vstd::prelude::*;

verus! {

/// A fjall transactional keyspace, held or borrowed.
pub(crate) enum TxKeyspaceHandle<'a> {
    Owned(fjall::OptimisticTxKeyspace),
    Borrowed(&'a fjall::OptimisticTxKeyspace),
}

impl<'a> TxKeyspaceHandle<'a> {
    /// The keyspace that the handle holds or borrows.
    pub(crate) open spec fn target(&self) -> fjall::OptimisticTxKeyspace {
        match self {
            TxKeyspaceHandle::Owned(ks) => *ks,
            TxKeyspaceHandle::Borrowed(ks) => **ks,
        }
    }

    pub(crate) fn keyspace(&self) -> (r: &fjall::OptimisticTxKeyspace)
        ensures
            *r == self.target(),
    {
        match self {
            TxKeyspaceHandle::Owned(ks) => ks,
            TxKeyspaceHandle::Borrowed(ks) => ks,
        }
    }
}

/// A typed keyspace of an optimistic transactional database. See
/// [`fjall::OptimisticTxKeyspace`]. It has a codec for its keys and one for its values.
pub struct TypedOptimisticTxKeyspace<'a, Key, Value> {
    handle: TxKeyspaceHandle<'a>,
    codecs: PhantomData<(Key, Value)>,
}

impl<'a, Key, Value> TypedOptimisticTxKeyspace<'a, Key, Value> {
    /// The fjall keyspace that this one types.
    pub closed spec fn fjall_keyspace(&self) -> fjall::OptimisticTxKeyspace {
        self.handle.target()
    }

    /// Type a fjall transactional keyspace.
    pub fn new(ks: fjall::OptimisticTxKeyspace) -> (r: Self)
        ensures
            r.fjall_keyspace() == ks,
    {
        TypedOptimisticTxKeyspace { handle: TxKeyspaceHandle::Owned(ks), codecs: PhantomData }
    }

    /// The fjall keyspace that this one types.
    pub fn inner(&self) -> (r: &fjall::OptimisticTxKeyspace)
        ensures
            *r == self.fjall_keyspace(),
    {
        self.handle.keyspace()
    }

    /// The plain typed keyspace under this one, with the same codecs.
    pub fn as_keyspace<'b>(&'b self) -> (r: TypedKeyspace<'b, Key, Value>)
        ensures
            r.fjall_keyspace() == tx_inner_keyspace(self.fjall_keyspace()),
    {
        TypedKeyspace::borrowed(tx_keyspace_inner(self.inner()))
    }

    /// Take a handle of its own to the keyspace, so that it no longer borrows the keyspace it
    /// was remapped from.
    pub fn to_owned(self) -> (r: TypedOptimisticTxKeyspace<'static, Key, Value>)
        ensures
            r.fjall_keyspace() == self.fjall_keyspace(),
    {
        let ks = match self.handle {
            TxKeyspaceHandle::Owned(ks) => ks,
            TxKeyspaceHandle::Borrowed(ks) => tx_keyspace_clone(ks),
        };
        TypedOptimisticTxKeyspace::new(ks)
    }

    /// The same keyspace with another key codec.
    pub fn remap_key<NK>(&'a self) -> (r: TypedOptimisticTxKeyspace<'a, NK, Value>)
        ensures
            r.fjall_keyspace() == self.fjall_keyspace(),
    {
        TypedOptimisticTxKeyspace {
            handle: TxKeyspaceHandle::Borrowed(self.inner()),
            codecs: PhantomData,
        }
    }

    /// The same keyspace with another value codec.
    pub fn remap_value<NV>(&'a self) -> (r: TypedOptimisticTxKeyspace<'a, Key, NV>)
        ensures
            r.fjall_keyspace() == self.fjall_keyspace(),
    {
        TypedOptimisticTxKeyspace {
            handle: TxKeyspaceHandle::Borrowed(self.inner()),
            codecs: PhantomData,
        }
    }

    /// The same keyspace with another key codec and another value codec.
    pub fn remap_key_value<NK, NV>(&'a self) -> (r: TypedOptimisticTxKeyspace<'a, NK, NV>)
        ensures
            r.fjall_keyspace() == self.fjall_keyspace(),
    {
        TypedOptimisticTxKeyspace {
            handle: TxKeyspaceHandle::Borrowed(self.inner()),
            codecs: PhantomData,
        }
    }
}

impl<'a, Key: Encode, Value: Encode> TypedOptimisticTxKeyspace<'a, Key, Value> {
    /// Insert the value under the key, as [`fjall::OptimisticTxKeyspace::insert`] does with
    /// their encodings. Fails with the key codec's error when the key cannot be encoded, else
    /// with the value codec's error when the value cannot be encoded.
    pub fn insert(&self, key: &Key::Item, value: &Value::Item) -> (r: Result<
        (),
        TypedError<Key::Error, Value::Error>,
    >)
        requires
            key_storable::<Key>(key),
            Key::spec_encode(key) is Some ==> value_storable::<Value>(value),
        ensures
            r matches Err(TypedError::Key(_)) <==> Key::spec_encode(key) is None,
            r matches Err(TypedError::Value(_)) <==> Key::spec_encode(key) is Some
                && Value::spec_encode(value) is None,
            Key::spec_encode(key) matches Some(kb) ==> (Value::spec_encode(value) matches Some(vb)
                ==> exists|raw: Result<(), fjall::Error>| #[trigger]
                tx_keyspace_insert_gave(self.fjall_keyspace(), kb, vb, raw) && answer_result(raw, r)),
    {
        let key = match Key::encode(key) {
            Ok(bytes) => bytes,
            Err(e) => return Err(TypedError::Key(e)),
        };
        let value = match Value::encode(value) {
            Ok(bytes) => bytes,
            Err(e) => return Err(TypedError::Value(e)),
        };
        let ks = self.inner();
        let ghost (gk, gv) = (key, value);
        let raw = tx_keyspace_insert(ks, key, value);
        proof {
            lemma_tx_keyspace_insert_gave(ks, gk, gv, raw);
        }
        fjall_outcome(raw)
    }
}

impl<'a, Key: Encode, Value> TypedOptimisticTxKeyspace<'a, Key, Value> {
    /// Whether the keyspace holds the key, as [`fjall::OptimisticTxKeyspace::contains_key`]
    /// tells it by the key's encoding. Fails with the key codec's error when the key cannot be
    /// encoded.
    pub fn contains_key(&self, key: &Key::Item) -> (r: Result<bool, TypedError<Key::Error, Infallible>>)
        requires
            key_within_limit::<Key>(key),
        ensures
            r matches Err(TypedError::Key(_)) <==> Key::spec_encode(key) is None,
            Key::spec_encode(key) matches Some(kb) ==> exists|raw: Result<bool, fjall::Error>|
                #[trigger] tx_keyspace_contains_key_gave(self.fjall_keyspace(), kb, raw)
                && answer_result(raw, r),
    {
        let key = match Key::encode(key) {
            Ok(bytes) => bytes,
            Err(e) => return Err(TypedError::Key(e)),
        };
        let ks = self.inner();
        let key = key.as_slice();
        let raw = tx_keyspace_contains_key(ks, key);
        proof {
            lemma_tx_keyspace_contains_key_gave(ks, key, raw);
        }
        fjall_outcome(raw)
    }

    /// The size of the value under the key, as [`fjall::OptimisticTxKeyspace::size_of`] gives it
    /// by the key's encoding. Fails with the key codec's error when the key cannot be encoded.
    pub fn size_of(&self, key: &Key::Item) -> (r: Result<Option<u32>, TypedError<Key::Error, Infallible>>)
        requires
            key_within_limit::<Key>(key),
        ensures
            r matches Err(TypedError::Key(_)) <==> Key::spec_encode(key) is None,
            Key::spec_encode(key) matches Some(kb) ==> exists|raw: Result<Option<u32>, fjall::Error>|
                #[trigger] tx_keyspace_size_of_gave(self.fjall_keyspace(), kb, raw)
                && answer_result(raw, r),
    {
        let key = match Key::encode(key) {
            Ok(bytes) => bytes,
            Err(e) => return Err(TypedError::Key(e)),
        };
        let ks = self.inner();
        let key = key.as_slice();
        let raw = tx_keyspace_size_of(ks, key);
        proof {
            lemma_tx_keyspace_size_of_gave(ks, key, raw);
        }
        fjall_outcome(raw)
    }

    /// Remove the key, as [`fjall::OptimisticTxKeyspace::remove`] does with its encoding.
    /// Fails with the key codec's error when the key cannot be encoded.
    pub fn remove(&self, key: &Key::Item) -> (r: Result<(), TypedError<Key::Error, Infallible>>)
        requires
            key_storable::<Key>(key),
        ensures
            r matches Err(TypedError::Key(_)) <==> Key::spec_encode(key) is None,
            Key::spec_encode(key) matches Some(kb) ==> exists|raw: Result<(), fjall::Error>|
                #[trigger] tx_keyspace_remove_gave(self.fjall_keyspace(), kb, raw)
                && answer_result(raw, r),
    {
        let key = match Key::encode(key) {
            Ok(bytes) => bytes,
            Err(e) => return Err(TypedError::Key(e)),
        };
        let ks = self.inner();
        let ghost gk = key;
        let raw = tx_keyspace_remove(ks, key);
        proof {
            lemma_tx_keyspace_remove_gave(ks, gk, raw);
        }
        fjall_outcome(raw)
    }
}

impl<'a, Key, Value: Decode> TypedOptimisticTxKeyspace<'a, Key, Value> {
    /// The entry with the smallest key, as [`fjall::OptimisticTxKeyspace::first_key_value`]
    /// gives it.
    pub fn first_key_value(&self) -> (r: Option<TypedGuard<Key, Value>>)
        ensures
            tx_keyspace_first_key_value_gave(self.fjall_keyspace(), fjall_guard_of(r)),
    {
        let ks = self.inner();
        let raw = tx_keyspace_first_key_value(ks);
        proof {
            lemma_tx_keyspace_first_key_value_gave(ks, raw);
        }
        match raw {
            Some(guard) => Some(TypedGuard::new(guard)),
            None => None,
        }
    }

    /// The entry with the largest key, as [`fjall::OptimisticTxKeyspace::last_key_value`] gives
    /// it.
    pub fn last_key_value(&self) -> (r: Option<TypedGuard<Key, Value>>)
        ensures
            tx_keyspace_last_key_value_gave(self.fjall_keyspace(), fjall_guard_of(r)),
    {
        let ks = self.inner();
        let raw = tx_keyspace_last_key_value(ks);
        proof {
            lemma_tx_keyspace_last_key_value_gave(ks, raw);
        }
        match raw {
            Some(guard) => Some(TypedGuard::new(guard)),
            None => None,
        }
    }
}

impl<'a, Key: Encode, Value: Decode> TypedOptimisticTxKeyspace<'a, Key, Value> {
    /// The value under the key, as [`fjall::OptimisticTxKeyspace::get`] finds it by the key's
    /// encoding. Fails with the key codec's error when the key cannot be encoded, and with the
    /// value codec's error when the bytes found do not hold a value.
    pub fn get(&self, key: &Key::Item) -> (r: Result<
        Option<Value::Item>,
        TypedError<Key::Error, Value::Error>,
    >)
        requires
            key_within_limit::<Key>(key),
        ensures
            r matches Err(TypedError::Key(_)) <==> Key::spec_encode(key) is None,
            r matches Ok(Some(v)) ==> exists|bytes: Seq<u8>| #[trigger] Value::decodes_to(bytes, v),
            r matches Err(TypedError::Value(_)) ==> exists|bytes: Seq<u8>|
                !#[trigger] Value::decodable(bytes),
            Key::spec_encode(key) matches Some(kb) ==> exists|raw: Result<Option<Vec<u8>>, fjall::Error>|
                #[trigger] tx_keyspace_get_gave(self.fjall_keyspace(), kb, raw)
                && lookup_result::<Key::Error, Value>(raw, r),
    {
        let key = match Key::encode(key) {
            Ok(bytes) => bytes,
            Err(e) => return Err(TypedError::Key(e)),
        };
        let ks = self.inner();
        let key = key.as_slice();
        let raw = tx_keyspace_get(ks, key);
        proof {
            lemma_tx_keyspace_get_gave(ks, key, raw);
        }
        let ghost graw = raw;
        let r = lookup_outcome::<Key::Error, Value>(raw);
        let ghost gr = r;
        proof {
            if let Ok(Some(bytes)) = graw {
                if let Ok(Some(v)) = gr {
                    assert(Value::decodes_to(bytes@, v));
                }
                if let Err(TypedError::Value(_)) = gr {
                    assert(!Value::decodable(bytes@));
                }
            }
        }
        r
    }

    /// Remove the key and give the value that it had, as [`fjall::OptimisticTxKeyspace::take`]
    /// does with the key's encoding. Fails with the key codec's error when the key cannot be
    /// encoded, and with the value codec's error when the bytes removed do not hold a value.
    pub fn take(&self, key: &Key::Item) -> (r: Result<
        Option<Value::Item>,
        TypedError<Key::Error, Value::Error>,
    >)
        requires
            key_within_limit::<Key>(key),
        ensures
            r matches Err(TypedError::Key(_)) <==> Key::spec_encode(key) is None,
            r matches Ok(Some(v)) ==> exists|bytes: Seq<u8>| #[trigger] Value::decodes_to(bytes, v),
            r matches Err(TypedError::Value(_)) ==> exists|bytes: Seq<u8>|
                !#[trigger] Value::decodable(bytes),
            Key::spec_encode(key) matches Some(kb) ==> exists|raw: Result<Option<Vec<u8>>, fjall::Error>|
                #[trigger] tx_keyspace_take_gave(self.fjall_keyspace(), kb, raw)
                && lookup_result::<Key::Error, Value>(raw, r),
    {
        let key = match Key::encode(key) {
            Ok(bytes) => bytes,
            Err(e) => return Err(TypedError::Key(e)),
        };
        let ks = self.inner();
        let ghost gk = key;
        let raw = tx_keyspace_take(ks, key);
        proof {
            lemma_tx_keyspace_take_gave(ks, gk, raw);
        }
        let ghost graw = raw;
        let r = lookup_outcome::<Key::Error, Value>(raw);
        let ghost gr = r;
        proof {
            if let Ok(Some(bytes)) = graw {
                if let Ok(Some(v)) = gr {
                    assert(Value::decodes_to(bytes@, v));
                }
                if let Err(TypedError::Value(_)) = gr {
                    assert(!Value::decodable(bytes@));
                }
            }
        }
        r
    }
}

/// Law of [`TypedOptimisticTxKeyspace::first_key_value`]: the entry given is the one that fjall's
/// `first_key_value` gave for the keyspace, the entry with the smallest key, and there is none
/// only where fjall gave none.
pub proof fn law_first_key_value_is_fjalls_first<'a, Key, Value>(
    keyspace: TypedOptimisticTxKeyspace<'a, Key, Value>,
    r: Option<TypedGuard<Key, Value>>,
)
    requires
        tx_keyspace_first_key_value_gave(keyspace.fjall_keyspace(), fjall_guard_of(r)),
    ensures
        r matches Some(g) ==> tx_keyspace_first_key_value_gave(
            keyspace.fjall_keyspace(),
            Some(g.fjall_guard()),
        ),
        r is None ==> tx_keyspace_first_key_value_gave(keyspace.fjall_keyspace(), None),
{
}

/// Law of [`TypedOptimisticTxKeyspace::last_key_value`]: the entry given is the one that fjall's
/// `last_key_value` gave for the keyspace, the entry with the largest key, and there is none only
/// where fjall gave none.
pub proof fn law_last_key_value_is_fjalls_last<'a, Key, Value>(
    keyspace: TypedOptimisticTxKeyspace<'a, Key, Value>,
    r: Option<TypedGuard<Key, Value>>,
)
    requires
        tx_keyspace_last_key_value_gave(keyspace.fjall_keyspace(), fjall_guard_of(r)),
    ensures
        r matches Some(g) ==> tx_keyspace_last_key_value_gave(
            keyspace.fjall_keyspace(),
            Some(g.fjall_guard()),
        ),
        r is None ==> tx_keyspace_last_key_value_gave(keyspace.fjall_keyspace(), None),
{
}

impl<'a, Key, Value> Clone for TypedOptimisticTxKeyspace<'a, Key, Value> {
    /// Another typed keyspace over the same fjall keyspace.
    fn clone(&self) -> (r: Self)
        ensures
            r.fjall_keyspace() == self.fjall_keyspace(),
    {
        let handle = match &self.handle {
            TxKeyspaceHandle::Owned(ks) => TxKeyspaceHandle::Owned(tx_keyspace_clone(ks)),
            TxKeyspaceHandle::Borrowed(ks) => TxKeyspaceHandle::Borrowed(*ks),
        };
        TypedOptimisticTxKeyspace { handle, codecs: PhantomData }
    }
}

impl<'a, Key, Value> core::ops::Deref for TypedOptimisticTxKeyspace<'a, Key, Value> {
    type Target = fjall::OptimisticTxKeyspace;

    fn deref(&self) -> (r: &fjall::OptimisticTxKeyspace)
        ensures
            *r == self.fjall_keyspace(),
    {
        self.inner()
    }
}

} // verus!
