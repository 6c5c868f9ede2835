//! Typed reads through anything that reads fjall keyspaces.
use crate::bounds::{encode_range, encoded_bound, range_error, KeyBound};
use crate::codec::{Decode, Encode};
use crate::error::TypedError;
use crate::keyspace::TypedKeyspace;
use crate::optimistic_write_tx::TypedOptimisticWriteTx;
use crate::fjall_types::{iter_bounds, iter_prefix, single_writer_writes, tx_writes};
use crate::limits::{bound_fits, bound_within_limit, found_bytes, key_fits, key_within_limit};
use crate::outcome::{answer_result, fjall_outcome, found_outcome, lookup_outcome, lookup_result};
use crate::fjall_guard_of;
use crate::answers::{
    lemma_single_writer_tx_contains_key_gave,
    lemma_single_writer_tx_first_key_value_gave,
    lemma_single_writer_tx_get_gave,
    lemma_single_writer_tx_is_empty_gave,
    lemma_single_writer_tx_iter_gave,
    lemma_single_writer_tx_last_key_value_gave,
    lemma_single_writer_tx_len_gave,
    lemma_single_writer_tx_size_of_gave,
    lemma_snapshot_contains_key_gave,
    lemma_snapshot_first_key_value_gave,
    lemma_snapshot_get_gave,
    lemma_snapshot_is_empty_gave,
    lemma_snapshot_iter_gave,
    lemma_snapshot_last_key_value_gave,
    lemma_snapshot_len_gave,
    lemma_snapshot_size_of_gave,
    lemma_write_tx_contains_key_gave,
    lemma_write_tx_first_key_value_gave,
    lemma_write_tx_get_gave,
    lemma_write_tx_is_empty_gave,
    lemma_write_tx_iter_gave,
    lemma_write_tx_last_key_value_gave,
    lemma_write_tx_len_gave,
    lemma_write_tx_size_of_gave,
    single_writer_tx_contains_key_gave,
    single_writer_tx_first_key_value_gave,
    single_writer_tx_get_gave,
    single_writer_tx_is_empty_gave,
    single_writer_tx_iter_gave,
    single_writer_tx_last_key_value_gave,
    single_writer_tx_len_gave,
    single_writer_tx_size_of_gave,
    snapshot_contains_key_gave,
    snapshot_first_key_value_gave,
    snapshot_get_gave,
    snapshot_is_empty_gave,
    snapshot_iter_gave,
    snapshot_last_key_value_gave,
    snapshot_len_gave,
    snapshot_size_of_gave,
    write_tx_contains_key_gave,
    write_tx_first_key_value_gave,
    write_tx_get_gave,
    write_tx_is_empty_gave,
    write_tx_iter_gave,
    write_tx_last_key_value_gave,
    write_tx_len_gave,
    write_tx_size_of_gave,
};
use crate::raw::{
    snapshot_contains_key, snapshot_first_key_value, snapshot_get, snapshot_is_empty, snapshot_iter,
    snapshot_last_key_value, snapshot_len, snapshot_prefix, snapshot_range, snapshot_size_of,
};
use crate::raw::{
    single_writer_tx_contains_key, single_writer_tx_first_key_value, single_writer_tx_get,
    single_writer_tx_is_empty, single_writer_tx_iter, single_writer_tx_last_key_value,
    single_writer_tx_len, single_writer_tx_prefix, single_writer_tx_range, single_writer_tx_size_of,
};
use crate::raw::{
    write_tx_contains_key, write_tx_first_key_value, write_tx_get, write_tx_is_empty, write_tx_iter,
    write_tx_last_key_value, write_tx_len, write_tx_prefix, write_tx_range, write_tx_size_of,
};
use crate::{TypedGuard, TypedIter};
use core::convert::Infallible;
use vstd::prelude::*;

verus! {

/// A typed version of [`fjall::Readable`]: a reader of keyspaces (a snapshot or a transaction)
/// reads them through their codecs. A reader provides the plain reads of fjall on bytes; the
/// typed reads are built on them.
pub trait TypedReadable {
    /// The writes that this reader holds of its own for a keyspace, by key: `Some` of the value
    /// written, or `None` where the key was removed. A read of such a key gives what was written.
    spec fn own_writes(&self, keyspace: fjall::Keyspace) -> Map<Seq<u8>, Option<Seq<u8>>>;

    /// [`fjall::Readable::get`] of the key bytes, with the value found copied into a vector.
    fn read_get(&self, keyspace: &fjall::Keyspace, key: &[u8]) -> (r: Result<Option<Vec<u8>>, fjall::Error>)
        requires
            key_fits(key@),
        ensures
            r is Err ==> !self.own_writes(*keyspace).contains_key(key@),
            r matches Ok(found) ==> (self.own_writes(*keyspace).contains_key(key@) ==> found_bytes(
                found,
            ) == self.own_writes(*keyspace)[key@]),
    ;

    /// [`fjall::Readable::contains_key`] of the key bytes.
    fn read_contains_key(&self, keyspace: &fjall::Keyspace, key: &[u8]) -> (r: Result<bool, fjall::Error>)
        requires
            key_fits(key@),
        ensures
            r is Err ==> !self.own_writes(*keyspace).contains_key(key@),
            r matches Ok(b) ==> (self.own_writes(*keyspace).contains_key(key@) ==> b
                == self.own_writes(*keyspace)[key@] is Some),
    ;

    /// [`fjall::Readable::first_key_value`].
    fn read_first_key_value(&self, keyspace: &fjall::Keyspace) -> Option<fjall::Guard>;

    /// [`fjall::Readable::last_key_value`].
    fn read_last_key_value(&self, keyspace: &fjall::Keyspace) -> Option<fjall::Guard>;

    /// [`fjall::Readable::size_of`] of the key bytes.
    fn read_size_of(&self, keyspace: &fjall::Keyspace, key: &[u8]) -> (r: Result<Option<u32>, fjall::Error>)
        requires
            key_fits(key@),
        ensures
            r is Err ==> !self.own_writes(*keyspace).contains_key(key@),
            r matches Ok(size) ==> (self.own_writes(*keyspace).contains_key(key@) ==> size
                == match self.own_writes(*keyspace)[key@] {
                Some(value) => Some(value.len() as u32),
                None => None,
            }),
    ;

    /// [`fjall::Readable::iter`].
    fn read_iter(&self, keyspace: &fjall::Keyspace) -> fjall::Iter;

    /// [`fjall::Readable::range`] between the two bounds of key bytes, which the iterator is
    /// made with.
    fn read_range(
        &self,
        keyspace: &fjall::Keyspace,
        start: KeyBound<Vec<u8>>,
        end: KeyBound<Vec<u8>>,
    ) -> (r: fjall::Iter)
        requires
            bound_fits(start@),
            bound_fits(end@),
        ensures
            iter_bounds(r) == (start@, end@),
    ;

    /// [`fjall::Readable::prefix`] of the prefix bytes, which the iterator is made with.
    fn read_prefix(&self, keyspace: &fjall::Keyspace, prefix: Vec<u8>) -> (r: fjall::Iter)
        requires
            key_fits(prefix@),
        ensures
            iter_prefix(r) == prefix@,
    ;

    /// [`fjall::Readable::is_empty`].
    fn read_is_empty(&self, keyspace: &fjall::Keyspace) -> Result<bool, fjall::Error>;

    /// [`fjall::Readable::len`].
    fn read_len(&self, keyspace: &fjall::Keyspace) -> Result<usize, fjall::Error>;

    /// The value under the key, as this reader finds it by the key's encoding. Fails with the
    /// key codec's error when the key cannot be encoded, and with the value codec's error when
    /// the bytes found do not hold a value.
    fn get<'a, Key: Encode, Value: Decode>(
        &self,
        keyspace: &TypedKeyspace<'a, Key, Value>,
        key: &Key::Item,
    ) -> (r: Result<Option<Value::Item>, TypedError<Key::Error, Value::Error>>)
        requires
            key_within_limit::<Key>(key),
        ensures
            r matches Err(TypedError::Key(_)) <==> Key::spec_encode(key) is None,
            Key::spec_encode(key) matches Some(kb) ==> (self.own_writes(
                keyspace.fjall_keyspace(),
            ).contains_key(kb) ==> found_outcome::<Key::Error, Value>(
                self.own_writes(keyspace.fjall_keyspace())[kb],
                r,
            )),
            r matches Ok(Some(v)) ==> exists|bytes: Seq<u8>| #[trigger] Value::decodes_to(bytes, v),
            r matches Err(TypedError::Value(_)) ==> exists|bytes: Seq<u8>|
                !#[trigger] Value::decodable(bytes),
            Key::spec_encode(key) matches Some(kb) ==> exists|raw: Result<Option<Vec<u8>>, fjall::Error>, key_bytes: &[u8]|
                key_bytes@ == kb && #[trigger] call_ensures(
                Self::read_get,
                (self, &keyspace.fjall_keyspace(), key_bytes),
                raw,
            )
                && lookup_result::<Key::Error, Value>(raw, r),
    {
        let key = match Key::encode(key) {
            Ok(bytes) => bytes,
            Err(e) => return Err(TypedError::Key(e)),
        };
        let key = key.as_slice();
        let raw = self.read_get(keyspace.inner(), key);
        let ghost graw = raw;
        let r = lookup_outcome::<Key::Error, Value>(raw);
        let ghost gr = r;
        proof {
            if let Ok(Some(bytes)) = graw {
                if let Ok(Some(v)) = gr {
                    assert(Value::decodes_to(bytes@, v));
                }
                if let Err(TypedError::Value(_)) = gr {
                    assert(!Value::decodable(bytes@));
                }
            }
        }
        r
    }

    /// Whether the keyspace holds the key, as this reader tells it by the key's encoding.
    /// Fails with the key codec's error when the key cannot be encoded.
    fn contains_key<'a, Key: Encode, Value>(
        &self,
        keyspace: &TypedKeyspace<'a, Key, Value>,
        key: &Key::Item,
    ) -> (r: Result<bool, TypedError<Key::Error, Infallible>>)
        requires
            key_within_limit::<Key>(key),
        ensures
            r matches Err(TypedError::Key(_)) <==> Key::spec_encode(key) is None,
            Key::spec_encode(key) matches Some(kb) ==> (self.own_writes(
                keyspace.fjall_keyspace(),
            ).contains_key(kb) ==> (r matches Ok(b) && b == self.own_writes(
                keyspace.fjall_keyspace(),
            )[kb] is Some)),
            Key::spec_encode(key) matches Some(kb) ==> exists|raw: Result<bool, fjall::Error>, key_bytes: &[u8]|
                key_bytes@ == kb && #[trigger] call_ensures(
                Self::read_contains_key,
                (self, &keyspace.fjall_keyspace(), key_bytes),
                raw,
            )
                && answer_result(raw, r),
    {
        let key = match Key::encode(key) {
            Ok(bytes) => bytes,
            Err(e) => return Err(TypedError::Key(e)),
        };
        let key = key.as_slice();
        let raw = self.read_contains_key(keyspace.inner(), key);
        fjall_outcome(raw)
    }

    /// The entry with the smallest key, as this reader gives it.
    fn first_key_value<'a, Key, Value>(&self, keyspace: &TypedKeyspace<'a, Key, Value>) -> (r: Option<
        TypedGuard<Key, Value>,
    >)
        ensures
            call_ensures(Self::read_first_key_value, (self, &keyspace.fjall_keyspace()), fjall_guard_of(r)),
    {
        match self.read_first_key_value(keyspace.inner()) {
            Some(guard) => Some(TypedGuard::new(guard)),
            None => None,
        }
    }

    /// The entry with the largest key, as this reader gives it.
    fn last_key_value<'a, Key, Value>(&self, keyspace: &TypedKeyspace<'a, Key, Value>) -> (r: Option<
        TypedGuard<Key, Value>,
    >)
        ensures
            call_ensures(Self::read_last_key_value, (self, &keyspace.fjall_keyspace()), fjall_guard_of(r)),
    {
        match self.read_last_key_value(keyspace.inner()) {
            Some(guard) => Some(TypedGuard::new(guard)),
            None => None,
        }
    }

    /// The size of the value under the key, as this reader gives it by the key's encoding.
    /// Fails with the key codec's error when the key cannot be encoded.
    fn size_of<'a, Key: Encode, Value>(
        &self,
        keyspace: &TypedKeyspace<'a, Key, Value>,
        key: &Key::Item,
    ) -> (r: Result<Option<u32>, TypedError<Key::Error, Infallible>>)
        requires
            key_within_limit::<Key>(key),
        ensures
            r matches Err(TypedError::Key(_)) <==> Key::spec_encode(key) is None,
            Key::spec_encode(key) matches Some(kb) ==> (self.own_writes(
                keyspace.fjall_keyspace(),
            ).contains_key(kb) ==> (r matches Ok(size) && size == match self.own_writes(
                keyspace.fjall_keyspace(),
            )[kb] {
                Some(value) => Some(value.len() as u32),
                None => None,
            })),
            Key::spec_encode(key) matches Some(kb) ==> exists|raw: Result<Option<u32>, fjall::Error>, key_bytes: &[u8]|
                key_bytes@ == kb && #[trigger] call_ensures(
                Self::read_size_of,
                (self, &keyspace.fjall_keyspace(), key_bytes),
                raw,
            )
                && answer_result(raw, r),
    {
        let key = match Key::encode(key) {
            Ok(bytes) => bytes,
            Err(e) => return Err(TypedError::Key(e)),
        };
        let key = key.as_slice();
        let raw = self.read_size_of(keyspace.inner(), key);
        fjall_outcome(raw)
    }

    /// Iterate over the whole keyspace, as this reader does.
    fn iter<'a, Key, Value>(&self, keyspace: &TypedKeyspace<'a, Key, Value>) -> (r: TypedIter<Key, Value>)
        ensures
            call_ensures(Self::read_iter, (self, &keyspace.fjall_keyspace()), r.fjall_iter()),
    {
        TypedIter::new(self.read_iter(keyspace.inner()))
    }

    /// Iterate over the keys between the two bounds, as this reader does between the bounds on
    /// their encodings (see [`encode_range`]). Fails with the key codec's error when a key of
    /// the bounds cannot be encoded.
    fn range<'a, Key: Encode, Value>(
        &self,
        keyspace: &TypedKeyspace<'a, Key, Value>,
        start: KeyBound<&Key::Item>,
        end: KeyBound<&Key::Item>,
    ) -> (r: Result<TypedIter<Key, Value>, Key::Error>)
        requires
            bound_within_limit::<Key>(start),
            bound_within_limit::<Key>(end),
        ensures
            r is Ok <==> encoded_bound::<Key>(start) is Some && encoded_bound::<Key>(end) is Some,
            r matches Ok(it) ==> encoded_bound::<Key>(start) == Some(iter_bounds(it.fjall_iter()).0)
                && encoded_bound::<Key>(end) == Some(iter_bounds(it.fjall_iter()).1),
            r matches Err(e) ==> range_error::<Key>(start, end, e),
    {
        let (start, end) = match encode_range::<Key>(start, end) {
            Ok(bounds) => bounds,
            Err(e) => return Err(e),
        };
        Ok(TypedIter::new(self.read_range(keyspace.inner(), start, end)))
    }

    /// Iterate over the keys whose encoding starts with the encoding of `prefix`, as this
    /// reader does. Fails with the key codec's error when the prefix cannot be encoded.
    fn prefix<'a, Key: Encode, Value>(
        &self,
        keyspace: &TypedKeyspace<'a, Key, Value>,
        prefix: &Key::Item,
    ) -> (r: Result<TypedIter<Key, Value>, Key::Error>)
        requires
            key_within_limit::<Key>(prefix),
        ensures
            r is Ok <==> Key::spec_encode(prefix) is Some,
            r matches Ok(it) ==> Key::spec_encode(prefix) == Some(iter_prefix(it.fjall_iter())),
            r matches Err(e) ==> call_ensures(Key::encode, (prefix,), Err(e)),
    {
        let prefix = match Key::encode(prefix) {
            Ok(bytes) => bytes,
            Err(e) => return Err(e),
        };
        Ok(TypedIter::new(self.read_prefix(keyspace.inner(), prefix)))
    }

    /// Whether the keyspace is empty, as this reader tells it.
    fn is_empty<'a, Key, Value>(&self, keyspace: &TypedKeyspace<'a, Key, Value>) -> (r: Result<
        bool,
        fjall::Error,
    >)
        ensures
            call_ensures(Self::read_is_empty, (self, &keyspace.fjall_keyspace()), r),
    {
        self.read_is_empty(keyspace.inner())
    }

    /// The number of entries of the keyspace, as this reader counts them.
    fn len<'a, Key, Value>(&self, keyspace: &TypedKeyspace<'a, Key, Value>) -> (r: Result<
        usize,
        fjall::Error,
    >)
        ensures
            call_ensures(Self::read_len, (self, &keyspace.fjall_keyspace()), r),
    {
        self.read_len(keyspace.inner())
    }
}

/// Law of [`TypedReadable::last_key_value`]: the entry given is the one that the reader's own
/// `last_key_value` gave for the keyspace (for a snapshot or a transaction, fjall's
/// `Readable::last_key_value`, the entry with the largest key it sees), and there is none only
/// where the reader gave none.
pub proof fn law_reader_last_key_value_is_its_last<'a, R: TypedReadable, Key, Value>(
    reader: &R,
    keyspace: TypedKeyspace<'a, Key, Value>,
    r: Option<TypedGuard<Key, Value>>,
)
    requires
        call_ensures(R::read_last_key_value, (reader, &keyspace.fjall_keyspace()), fjall_guard_of(r)),
    ensures
        r matches Some(g) ==> call_ensures(
            R::read_last_key_value,
            (reader, &keyspace.fjall_keyspace()),
            Some(g.fjall_guard()),
        ),
        r is None ==> call_ensures(R::read_last_key_value, (reader, &keyspace.fjall_keyspace()), None),
{
}

/// Law of [`TypedReadable::first_key_value`]: the entry given is the one that the reader's own
/// `first_key_value` gave for the keyspace, and there is none only where the reader gave none.
pub proof fn law_reader_first_key_value_is_its_first<'a, R: TypedReadable, Key, Value>(
    reader: &R,
    keyspace: TypedKeyspace<'a, Key, Value>,
    r: Option<TypedGuard<Key, Value>>,
)
    requires
        call_ensures(R::read_first_key_value, (reader, &keyspace.fjall_keyspace()), fjall_guard_of(r)),
    ensures
        r matches Some(g) ==> call_ensures(
            R::read_first_key_value,
            (reader, &keyspace.fjall_keyspace()),
            Some(g.fjall_guard()),
        ),
        r is None ==> call_ensures(R::read_first_key_value, (reader, &keyspace.fjall_keyspace()), None),
{
}

/// Law of [`TypedReadable::last_key_value`] on a snapshot: the entry given is the one that
/// fjall's `Readable::last_key_value` of the snapshot gave for the keyspace, the entry with the
/// largest key the snapshot sees.
pub proof fn law_snapshot_last_key_value_is_fjalls_last<'a, Key, Value>(
    snapshot: &fjall::Snapshot,
    keyspace: TypedKeyspace<'a, Key, Value>,
    r: Option<TypedGuard<Key, Value>>,
)
    requires
        call_ensures(
            <fjall::Snapshot as TypedReadable>::read_last_key_value,
            (snapshot, &keyspace.fjall_keyspace()),
            fjall_guard_of(r),
        ),
    ensures
        snapshot_last_key_value_gave(*snapshot, keyspace.fjall_keyspace(), fjall_guard_of(r)),
{
}

impl TypedReadable for fjall::Snapshot {
    /// A snapshot writes nothing.
    open spec fn own_writes(&self, keyspace: fjall::Keyspace) -> Map<Seq<u8>, Option<Seq<u8>>> {
        Map::empty()
    }

    fn read_get(&self, keyspace: &fjall::Keyspace, key: &[u8]) -> (r: Result<Option<Vec<u8>>, fjall::Error>)
        ensures
            snapshot_get_gave(*self, *keyspace, key@, r),
    {
        let r = snapshot_get(self, keyspace, key);
        proof {
            lemma_snapshot_get_gave(self, keyspace, key, r);
        }
        r
    }

    fn read_contains_key(&self, keyspace: &fjall::Keyspace, key: &[u8]) -> (r: Result<bool, fjall::Error>)
        ensures
            snapshot_contains_key_gave(*self, *keyspace, key@, r),
    {
        let r = snapshot_contains_key(self, keyspace, key);
        proof {
            lemma_snapshot_contains_key_gave(self, keyspace, key, r);
        }
        r
    }

    fn read_first_key_value(&self, keyspace: &fjall::Keyspace) -> (r: Option<fjall::Guard>)
        ensures
            snapshot_first_key_value_gave(*self, *keyspace, r),
    {
        let r = snapshot_first_key_value(self, keyspace);
        proof {
            lemma_snapshot_first_key_value_gave(self, keyspace, r);
        }
        r
    }

    fn read_last_key_value(&self, keyspace: &fjall::Keyspace) -> (r: Option<fjall::Guard>)
        ensures
            snapshot_last_key_value_gave(*self, *keyspace, r),
    {
        let r = snapshot_last_key_value(self, keyspace);
        proof {
            lemma_snapshot_last_key_value_gave(self, keyspace, r);
        }
        r
    }

    fn read_size_of(&self, keyspace: &fjall::Keyspace, key: &[u8]) -> (r: Result<Option<u32>, fjall::Error>)
        ensures
            snapshot_size_of_gave(*self, *keyspace, key@, r),
    {
        let r = snapshot_size_of(self, keyspace, key);
        proof {
            lemma_snapshot_size_of_gave(self, keyspace, key, r);
        }
        r
    }

    fn read_iter(&self, keyspace: &fjall::Keyspace) -> (r: fjall::Iter)
        ensures
            snapshot_iter_gave(*self, *keyspace, r),
    {
        let r = snapshot_iter(self, keyspace);
        proof {
            lemma_snapshot_iter_gave(self, keyspace, r);
        }
        r
    }

    fn read_range(
        &self,
        keyspace: &fjall::Keyspace,
        start: KeyBound<Vec<u8>>,
        end: KeyBound<Vec<u8>>,
    ) -> fjall::Iter {
        snapshot_range(self, keyspace, start, end)
    }

    fn read_prefix(&self, keyspace: &fjall::Keyspace, prefix: Vec<u8>) -> fjall::Iter {
        snapshot_prefix(self, keyspace, prefix)
    }

    fn read_is_empty(&self, keyspace: &fjall::Keyspace) -> (r: Result<bool, fjall::Error>)
        ensures
            snapshot_is_empty_gave(*self, *keyspace, r),
    {
        let r = snapshot_is_empty(self, keyspace);
        proof {
            lemma_snapshot_is_empty_gave(self, keyspace, r);
        }
        r
    }

    fn read_len(&self, keyspace: &fjall::Keyspace) -> (r: Result<usize, fjall::Error>)
        ensures
            snapshot_len_gave(*self, *keyspace, r),
    {
        let r = snapshot_len(self, keyspace);
        proof {
            lemma_snapshot_len_gave(self, keyspace, r);
        }
        r
    }
}

impl TypedReadable for TypedOptimisticWriteTx {
    /// The writes that the transaction holds for the keyspace.
    open spec fn own_writes(&self, keyspace: fjall::Keyspace) -> Map<Seq<u8>, Option<Seq<u8>>> {
        tx_writes(self.0, keyspace)
    }

    fn read_get(&self, keyspace: &fjall::Keyspace, key: &[u8]) -> (r: Result<Option<Vec<u8>>, fjall::Error>)
        ensures
            write_tx_get_gave(self.0, *keyspace, key@, r),
    {
        let r = write_tx_get(&self.0, keyspace, key);
        proof {
            lemma_write_tx_get_gave(&self.0, keyspace, key, r);
        }
        r
    }

    fn read_contains_key(&self, keyspace: &fjall::Keyspace, key: &[u8]) -> (r: Result<bool, fjall::Error>)
        ensures
            write_tx_contains_key_gave(self.0, *keyspace, key@, r),
    {
        let r = write_tx_contains_key(&self.0, keyspace, key);
        proof {
            lemma_write_tx_contains_key_gave(&self.0, keyspace, key, r);
        }
        r
    }

    fn read_first_key_value(&self, keyspace: &fjall::Keyspace) -> (r: Option<fjall::Guard>)
        ensures
            write_tx_first_key_value_gave(self.0, *keyspace, r),
    {
        let r = write_tx_first_key_value(&self.0, keyspace);
        proof {
            lemma_write_tx_first_key_value_gave(&self.0, keyspace, r);
        }
        r
    }

    fn read_last_key_value(&self, keyspace: &fjall::Keyspace) -> (r: Option<fjall::Guard>)
        ensures
            write_tx_last_key_value_gave(self.0, *keyspace, r),
    {
        let r = write_tx_last_key_value(&self.0, keyspace);
        proof {
            lemma_write_tx_last_key_value_gave(&self.0, keyspace, r);
        }
        r
    }

    fn read_size_of(&self, keyspace: &fjall::Keyspace, key: &[u8]) -> (r: Result<Option<u32>, fjall::Error>)
        ensures
            write_tx_size_of_gave(self.0, *keyspace, key@, r),
    {
        let r = write_tx_size_of(&self.0, keyspace, key);
        proof {
            lemma_write_tx_size_of_gave(&self.0, keyspace, key, r);
        }
        r
    }

    fn read_iter(&self, keyspace: &fjall::Keyspace) -> (r: fjall::Iter)
        ensures
            write_tx_iter_gave(self.0, *keyspace, r),
    {
        let r = write_tx_iter(&self.0, keyspace);
        proof {
            lemma_write_tx_iter_gave(&self.0, keyspace, r);
        }
        r
    }

    fn read_range(
        &self,
        keyspace: &fjall::Keyspace,
        start: KeyBound<Vec<u8>>,
        end: KeyBound<Vec<u8>>,
    ) -> fjall::Iter {
        write_tx_range(&self.0, keyspace, start, end)
    }

    fn read_prefix(&self, keyspace: &fjall::Keyspace, prefix: Vec<u8>) -> fjall::Iter {
        write_tx_prefix(&self.0, keyspace, prefix)
    }

    fn read_is_empty(&self, keyspace: &fjall::Keyspace) -> (r: Result<bool, fjall::Error>)
        ensures
            write_tx_is_empty_gave(self.0, *keyspace, r),
    {
        let r = write_tx_is_empty(&self.0, keyspace);
        proof {
            lemma_write_tx_is_empty_gave(&self.0, keyspace, r);
        }
        r
    }

    fn read_len(&self, keyspace: &fjall::Keyspace) -> (r: Result<usize, fjall::Error>)
        ensures
            write_tx_len_gave(self.0, *keyspace, r),
    {
        let r = write_tx_len(&self.0, keyspace);
        proof {
            lemma_write_tx_len_gave(&self.0, keyspace, r);
        }
        r
    }
}

impl TypedReadable for fjall::OptimisticWriteTx {
    /// The writes that the transaction holds for the keyspace.
    open spec fn own_writes(&self, keyspace: fjall::Keyspace) -> Map<Seq<u8>, Option<Seq<u8>>> {
        tx_writes(*self, keyspace)
    }

    fn read_get(&self, keyspace: &fjall::Keyspace, key: &[u8]) -> (r: Result<Option<Vec<u8>>, fjall::Error>)
        ensures
            write_tx_get_gave(*self, *keyspace, key@, r),
    {
        let r = write_tx_get(self, keyspace, key);
        proof {
            lemma_write_tx_get_gave(self, keyspace, key, r);
        }
        r
    }

    fn read_contains_key(&self, keyspace: &fjall::Keyspace, key: &[u8]) -> (r: Result<bool, fjall::Error>)
        ensures
            write_tx_contains_key_gave(*self, *keyspace, key@, r),
    {
        let r = write_tx_contains_key(self, keyspace, key);
        proof {
            lemma_write_tx_contains_key_gave(self, keyspace, key, r);
        }
        r
    }

    fn read_first_key_value(&self, keyspace: &fjall::Keyspace) -> (r: Option<fjall::Guard>)
        ensures
            write_tx_first_key_value_gave(*self, *keyspace, r),
    {
        let r = write_tx_first_key_value(self, keyspace);
        proof {
            lemma_write_tx_first_key_value_gave(self, keyspace, r);
        }
        r
    }

    fn read_last_key_value(&self, keyspace: &fjall::Keyspace) -> (r: Option<fjall::Guard>)
        ensures
            write_tx_last_key_value_gave(*self, *keyspace, r),
    {
        let r = write_tx_last_key_value(self, keyspace);
        proof {
            lemma_write_tx_last_key_value_gave(self, keyspace, r);
        }
        r
    }

    fn read_size_of(&self, keyspace: &fjall::Keyspace, key: &[u8]) -> (r: Result<Option<u32>, fjall::Error>)
        ensures
            write_tx_size_of_gave(*self, *keyspace, key@, r),
    {
        let r = write_tx_size_of(self, keyspace, key);
        proof {
            lemma_write_tx_size_of_gave(self, keyspace, key, r);
        }
        r
    }

    fn read_iter(&self, keyspace: &fjall::Keyspace) -> (r: fjall::Iter)
        ensures
            write_tx_iter_gave(*self, *keyspace, r),
    {
        let r = write_tx_iter(self, keyspace);
        proof {
            lemma_write_tx_iter_gave(self, keyspace, r);
        }
        r
    }

    fn read_range(
        &self,
        keyspace: &fjall::Keyspace,
        start: KeyBound<Vec<u8>>,
        end: KeyBound<Vec<u8>>,
    ) -> fjall::Iter {
        write_tx_range(self, keyspace, start, end)
    }

    fn read_prefix(&self, keyspace: &fjall::Keyspace, prefix: Vec<u8>) -> fjall::Iter {
        write_tx_prefix(self, keyspace, prefix)
    }

    fn read_is_empty(&self, keyspace: &fjall::Keyspace) -> (r: Result<bool, fjall::Error>)
        ensures
            write_tx_is_empty_gave(*self, *keyspace, r),
    {
        let r = write_tx_is_empty(self, keyspace);
        proof {
            lemma_write_tx_is_empty_gave(self, keyspace, r);
        }
        r
    }

    fn read_len(&self, keyspace: &fjall::Keyspace) -> (r: Result<usize, fjall::Error>)
        ensures
            write_tx_len_gave(*self, *keyspace, r),
    {
        let r = write_tx_len(self, keyspace);
        proof {
            lemma_write_tx_len_gave(self, keyspace, r);
        }
        r
    }
}

impl<'a> TypedReadable for fjall::SingleWriterWriteTx<'a> {
    /// The writes that the transaction holds for the keyspace.
    open spec fn own_writes(&self, keyspace: fjall::Keyspace) -> Map<Seq<u8>, Option<Seq<u8>>> {
        single_writer_writes(*self, keyspace)
    }

    fn read_get(&self, keyspace: &fjall::Keyspace, key: &[u8]) -> (r: Result<Option<Vec<u8>>, fjall::Error>)
        ensures
            single_writer_tx_get_gave(*self, *keyspace, key@, r),
    {
        let r = single_writer_tx_get(self, keyspace, key);
        proof {
            lemma_single_writer_tx_get_gave(self, keyspace, key, r);
        }
        r
    }

    fn read_contains_key(&self, keyspace: &fjall::Keyspace, key: &[u8]) -> (r: Result<bool, fjall::Error>)
        ensures
            single_writer_tx_contains_key_gave(*self, *keyspace, key@, r),
    {
        let r = single_writer_tx_contains_key(self, keyspace, key);
        proof {
            lemma_single_writer_tx_contains_key_gave(self, keyspace, key, r);
        }
        r
    }

    fn read_first_key_value(&self, keyspace: &fjall::Keyspace) -> (r: Option<fjall::Guard>)
        ensures
            single_writer_tx_first_key_value_gave(*self, *keyspace, r),
    {
        let r = single_writer_tx_first_key_value(self, keyspace);
        proof {
            lemma_single_writer_tx_first_key_value_gave(self, keyspace, r);
        }
        r
    }

    fn read_last_key_value(&self, keyspace: &fjall::Keyspace) -> (r: Option<fjall::Guard>)
        ensures
            single_writer_tx_last_key_value_gave(*self, *keyspace, r),
    {
        let r = single_writer_tx_last_key_value(self, keyspace);
        proof {
            lemma_single_writer_tx_last_key_value_gave(self, keyspace, r);
        }
        r
    }

    fn read_size_of(&self, keyspace: &fjall::Keyspace, key: &[u8]) -> (r: Result<Option<u32>, fjall::Error>)
        ensures
            single_writer_tx_size_of_gave(*self, *keyspace, key@, r),
    {
        let r = single_writer_tx_size_of(self, keyspace, key);
        proof {
            lemma_single_writer_tx_size_of_gave(self, keyspace, key, r);
        }
        r
    }

    fn read_iter(&self, keyspace: &fjall::Keyspace) -> (r: fjall::Iter)
        ensures
            single_writer_tx_iter_gave(*self, *keyspace, r),
    {
        let r = single_writer_tx_iter(self, keyspace);
        proof {
            lemma_single_writer_tx_iter_gave(self, keyspace, r);
        }
        r
    }

    fn read_range(
        &self,
        keyspace: &fjall::Keyspace,
        start: KeyBound<Vec<u8>>,
        end: KeyBound<Vec<u8>>,
    ) -> fjall::Iter {
        single_writer_tx_range(self, keyspace, start, end)
    }

    fn read_prefix(&self, keyspace: &fjall::Keyspace, prefix: Vec<u8>) -> fjall::Iter {
        single_writer_tx_prefix(self, keyspace, prefix)
    }

    fn read_is_empty(&self, keyspace: &fjall::Keyspace) -> (r: Result<bool, fjall::Error>)
        ensures
            single_writer_tx_is_empty_gave(*self, *keyspace, r),
    {
        let r = single_writer_tx_is_empty(self, keyspace);
        proof {
            lemma_single_writer_tx_is_empty_gave(self, keyspace, r);
        }
        r
    }

    fn read_len(&self, keyspace: &fjall::Keyspace) -> (r: Result<usize, fjall::Error>)
        ensures
            single_writer_tx_len_gave(*self, *keyspace, r),
    {
        let r = single_writer_tx_len(self, keyspace);
        proof {
            lemma_single_writer_tx_len_gave(self, keyspace, r);
        }
        r
    }
}

} // verus!
