//! Typed operations of an optimistic write transaction.
use crate::answers::{lemma_write_tx_commit_gave, write_tx_commit_gave};
use crate::codec::{Decode, Encode};
use crate::error::TypedError;
use crate::fjall_types::{tx_durability, tx_writes};
use crate::keyspace::TypedKeyspace;
use crate::limits::{key_storable, key_within_limit, value_storable};
use crate::outcome::{found_outcome, lookup_outcome};
use crate::readable::TypedReadable;
use crate::raw::{write_tx_commit, write_tx_durability, write_tx_insert, write_tx_remove, write_tx_take};
use core::convert::Infallible;
use vstd::prelude::*;

verus! {

/// An optimistic write transaction of fjall ([`fjall::OptimisticWriteTx`]) that reads and writes
/// typed keyspaces. It reads them through [`crate::TypedReadable`].
pub struct TypedOptimisticWriteTx(pub fjall::OptimisticWriteTx);

impl TypedOptimisticWriteTx {
    /// Wrap a fjall transaction.
    pub fn new(tx: fjall::OptimisticWriteTx) -> (r: Self)
        ensures
            r.0 == tx,
    {
        TypedOptimisticWriteTx(tx)
    }

    /// The same transaction, with the same writes, committing with the given durability, as
    /// [`fjall::OptimisticWriteTx::durability`] sets it.
    pub fn durability(self, mode: Option<fjall::PersistMode>) -> (r: Self)
        ensures
            tx_durability(r.0) == mode,
            forall|ks: fjall::Keyspace| tx_writes(r.0, ks) == tx_writes(self.0, ks),
    {
        TypedOptimisticWriteTx(write_tx_durability(self.0, mode))
    }

    /// Commit the transaction, as [`fjall::OptimisticWriteTx::commit`] does.
    pub fn commit(self) -> (r: Result<Result<(), fjall::Conflict>, fjall::Error>)
        ensures
            write_tx_commit_gave(self.0, r),
    {
        let r = write_tx_commit(self.0);
        proof {
            lemma_write_tx_commit_gave(self.0, r);
        }
        r
    }

    /// Remove the key from the keyspace within the transaction and give the value that it had,
    /// as [`fjall::OptimisticWriteTx::take`] does with the key's encoding.
    /// - Fails with the key codec's error, leaving the transaction as it was, when the key
    ///   cannot be encoded.
    /// - Where the transaction wrote the key itself, what it gives back is decoded from that
    ///   write.
    /// - The key is removed within the transaction where a value was found under it (also when
    ///   that value does not decode, which fails with the value codec's error); otherwise the
    ///   writes of the transaction stay as they were.
    pub fn take<'a, Key: Encode, Value: Decode>(
        &mut self,
        keyspace: &TypedKeyspace<'a, Key, Value>,
        key: &Key::Item,
    ) -> (r: Result<Option<Value::Item>, TypedError<Key::Error, Value::Error>>)
        requires
            key_within_limit::<Key>(key),
        ensures
            r matches Err(TypedError::Key(_)) <==> Key::spec_encode(key) is None,
            r matches Err(TypedError::Key(_)) ==> *final(self) == *old(self),
            r matches Ok(Some(v)) ==> exists|bytes: Seq<u8>| #[trigger] Value::decodes_to(bytes, v),
            r matches Err(TypedError::Value(_)) ==> exists|bytes: Seq<u8>|
                !#[trigger] Value::decodable(bytes),
            Key::spec_encode(key) is Some && tx_writes(old(self).0, keyspace.fjall_keyspace()).contains_key(
                Key::spec_encode(key)->0,
            ) ==> found_outcome::<Key::Error, Value>(
                tx_writes(old(self).0, keyspace.fjall_keyspace())[Key::spec_encode(key)->0],
                r,
            ),
            (r matches Ok(Some(_))) || (r matches Err(TypedError::Value(_))) ==> tx_writes(
                final(self).0,
                keyspace.fjall_keyspace(),
            ) == tx_writes(old(self).0, keyspace.fjall_keyspace()).insert(
                Key::spec_encode(key)->0,
                None,
            ),
            (r matches Ok(None)) || (r matches Err(TypedError::Fjall(_))) ==> tx_writes(
                final(self).0,
                keyspace.fjall_keyspace(),
            ) == tx_writes(old(self).0, keyspace.fjall_keyspace()),
            tx_durability(final(self).0) == tx_durability(old(self).0),
    {
        let key = match Key::encode(key) {
            Ok(bytes) => bytes,
            Err(e) => return Err(TypedError::Key(e)),
        };
        let raw = write_tx_take(&mut self.0, keyspace.inner(), key);
        let ghost graw = raw;
        let r = lookup_outcome::<Key::Error, Value>(raw);
        let ghost gr = r;
        proof {
            if let Ok(Some(bytes)) = graw {
                if let Ok(Some(v)) = gr {
                    assert(Value::decodes_to(bytes@, v));
                }
                if let Err(TypedError::Value(_)) = gr {
                    assert(!Value::decodable(bytes@));
                }
            }
        }
        r
    }

    /// Insert the value under the key into the keyspace within the transaction, as
    /// [`fjall::OptimisticWriteTx::insert`] does with their encodings: the transaction then holds
    /// the encoded value under the encoded key. Fails, leaving the transaction as it was, with
    /// the key codec's error when the key cannot be encoded, else with the value codec's error
    /// when the value cannot be encoded; succeeds otherwise.
    pub fn insert<'a, Key: Encode, Value: Encode>(
        &mut self,
        keyspace: &TypedKeyspace<'a, Key, Value>,
        key: &Key::Item,
        value: &Value::Item,
    ) -> (r: Result<(), TypedError<Key::Error, Value::Error>>)
        requires
            key_storable::<Key>(key),
            Key::spec_encode(key) is Some ==> value_storable::<Value>(value),
        ensures
            r matches Err(TypedError::Key(_)) <==> Key::spec_encode(key) is None,
            r matches Err(TypedError::Value(_)) <==> Key::spec_encode(key) is Some
                && Value::spec_encode(value) is None,
            !(r matches Err(TypedError::Fjall(_))),
            r is Err ==> *final(self) == *old(self),
            r is Ok ==> tx_writes(final(self).0, keyspace.fjall_keyspace()) == tx_writes(
                old(self).0,
                keyspace.fjall_keyspace(),
            ).insert(Key::spec_encode(key)->0, Some(Value::spec_encode(value)->0)),
            tx_durability(final(self).0) == tx_durability(old(self).0),
    {
        let key = match Key::encode(key) {
            Ok(bytes) => bytes,
            Err(e) => return Err(TypedError::Key(e)),
        };
        let value = match Value::encode(value) {
            Ok(bytes) => bytes,
            Err(e) => return Err(TypedError::Value(e)),
        };
        write_tx_insert(&mut self.0, keyspace.inner(), key, value);
        Ok(())
    }

    /// Remove the key from the keyspace within the transaction, as
    /// [`fjall::OptimisticWriteTx::remove`] does with its encoding: the transaction then holds
    /// the removal of the encoded key. Fails with the key codec's error, leaving the transaction
    /// as it was, when the key cannot be encoded; succeeds otherwise.
    pub fn remove<'a, Key: Encode, Value>(
        &mut self,
        keyspace: &TypedKeyspace<'a, Key, Value>,
        key: &Key::Item,
    ) -> (r: Result<(), TypedError<Key::Error, Infallible>>)
        requires
            key_storable::<Key>(key),
        ensures
            r is Err <==> Key::spec_encode(key) is None,
            r is Err ==> (r matches Err(TypedError::Key(_)) && *final(self) == *old(self)),
            r is Ok ==> tx_writes(final(self).0, keyspace.fjall_keyspace()) == tx_writes(
                old(self).0,
                keyspace.fjall_keyspace(),
            ).insert(Key::spec_encode(key)->0, None),
            tx_durability(final(self).0) == tx_durability(old(self).0),
    {
        let key = match Key::encode(key) {
            Ok(bytes) => bytes,
            Err(e) => return Err(TypedError::Key(e)),
        };
        write_tx_remove(&mut self.0, keyspace.inner(), key);
        Ok(())
    }
}

/// What a read within a transaction gives of a key whose encoding the transaction wrote: with
/// `reader` the transaction after the write, `r` what [`TypedReadable::get`] may give there.
pub open spec fn reads_own_write<'a, Key: Encode, Value: Decode>(
    reader: TypedOptimisticWriteTx,
    keyspace: TypedKeyspace<'a, Key, Value>,
    key: &Key::Item,
    r: Result<Option<Value::Item>, TypedError<Key::Error, Value::Error>>,
) -> bool {
    Key::spec_encode(key) matches Some(kb) ==> (reader.own_writes(keyspace.fjall_keyspace()).contains_key(
        kb,
    ) ==> found_outcome::<Key::Error, Value>(reader.own_writes(keyspace.fjall_keyspace())[kb], r))
}

/// A transaction reads back what it inserted: once [`TypedOptimisticWriteTx::insert`] has put a
/// value under a key, [`TypedReadable::get`] of the key within the transaction gives the value's
/// encoding, decoded (or the value codec's error, where those bytes do not decode).
pub proof fn lemma_tx_get_after_insert<'a, Key: Encode, Value: Encode + Decode>(
    before: TypedOptimisticWriteTx,
    after: TypedOptimisticWriteTx,
    keyspace: TypedKeyspace<'a, Key, Value>,
    key: &Key::Item,
    value: &<Value as Encode>::Item,
    r: Result<Option<<Value as Decode>::Item>, TypedError<Key::Error, <Value as Decode>::Error>>,
)
    requires
        Key::spec_encode(key) is Some,
        Value::spec_encode(value) is Some,
        tx_writes(after.0, keyspace.fjall_keyspace()) == tx_writes(
            before.0,
            keyspace.fjall_keyspace(),
        ).insert(Key::spec_encode(key)->0, Some(Value::spec_encode(value)->0)),
        reads_own_write(after, keyspace, key, r),
    ensures
        found_outcome::<Key::Error, Value>(Some(Value::spec_encode(value)->0), r),
{
}

/// A transaction reads nothing of what it removed: once [`TypedOptimisticWriteTx::remove`] has
/// removed a key, or [`TypedOptimisticWriteTx::take`] has taken a value from under it,
/// [`TypedReadable::get`] of the key within the transaction gives nothing.
pub proof fn lemma_tx_get_after_remove<'a, Key: Encode, Value: Decode>(
    before: TypedOptimisticWriteTx,
    after: TypedOptimisticWriteTx,
    keyspace: TypedKeyspace<'a, Key, Value>,
    key: &Key::Item,
    r: Result<Option<Value::Item>, TypedError<Key::Error, Value::Error>>,
)
    requires
        Key::spec_encode(key) is Some,
        tx_writes(after.0, keyspace.fjall_keyspace()) == tx_writes(
            before.0,
            keyspace.fjall_keyspace(),
        ).insert(Key::spec_encode(key)->0, None),
        reads_own_write(after, keyspace, key, r),
    ensures
        r matches Ok(None),
{
}

/// A transaction takes back what it inserted: once [`TypedOptimisticWriteTx::insert`] has put a
/// value under a key, [`TypedOptimisticWriteTx::take`] of the key gives the value's encoding,
/// decoded (or the value codec's error, where those bytes do not decode), and removes the key.
pub proof fn lemma_tx_take_after_insert<'a, Key: Encode, Value: Encode + Decode>(
    before: TypedOptimisticWriteTx,
    after: TypedOptimisticWriteTx,
    keyspace: TypedKeyspace<'a, Key, Value>,
    key: &Key::Item,
    value: &<Value as Encode>::Item,
    r: Result<Option<<Value as Decode>::Item>, TypedError<Key::Error, <Value as Decode>::Error>>,
    taken: TypedOptimisticWriteTx,
)
    requires
        Key::spec_encode(key) is Some,
        Value::spec_encode(value) is Some,
        tx_writes(after.0, keyspace.fjall_keyspace()) == tx_writes(
            before.0,
            keyspace.fjall_keyspace(),
        ).insert(Key::spec_encode(key)->0, Some(Value::spec_encode(value)->0)),
        reads_own_write(after, keyspace, key, r),
        (r matches Ok(Some(_))) || (r matches Err(TypedError::Value(_))) ==> tx_writes(
            taken.0,
            keyspace.fjall_keyspace(),
        ) == tx_writes(after.0, keyspace.fjall_keyspace()).insert(Key::spec_encode(key)->0, None),
    ensures
        found_outcome::<Key::Error, Value>(Some(Value::spec_encode(value)->0), r),
        tx_writes(taken.0, keyspace.fjall_keyspace()) == tx_writes(
            before.0,
            keyspace.fjall_keyspace(),
        ).insert(Key::spec_encode(key)->0, None),
{
    assert(tx_writes(after.0, keyspace.fjall_keyspace()).insert(Key::spec_encode(key)->0, None)
        =~= tx_writes(before.0, keyspace.fjall_keyspace()).insert(Key::spec_encode(key)->0, None));
}

impl core::ops::Deref for TypedOptimisticWriteTx {
    type Target = fjall::OptimisticWriteTx;

    fn deref(&self) -> (r: &fjall::OptimisticWriteTx)
        ensures
            *r == self.0,
    {
        &self.0
    }
}

} // verus!
