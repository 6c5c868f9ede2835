//! The calls into fjall. What fjall answers from disk is not a function of its arguments, so
//! none of these promises anything of such an answer; what each does promise, it says.
//! Keys longer than `u16::MAX` bytes make fjall panic, and so do empty keys and values
//! longer than `u32::MAX` bytes where it stores them: each call requires what it needs.
use crate::bounds::KeyBound;
use crate::fjall_types::{
    iter_bounds, iter_prefix, single_writer_writes, tx_durability, tx_inner_keyspace, tx_writes,
};
use crate::limits::{bound_fits, found_bytes, key_fits, storable_key, storable_value};
use vstd::prelude::*;

verus! {

/// `Keyspace::clone`: a new handle to the same keyspace (the handle is an `Arc`).
#[verifier::external_body]
pub(crate) fn keyspace_clone(ks: &fjall::Keyspace) -> (r: fjall::Keyspace)
    ensures
        r == *ks,
{
    ks.clone()
}

/// `Keyspace::insert` of the key and value bytes.
#[verifier::external_body]
pub(crate) fn keyspace_insert(ks: &fjall::Keyspace, key: Vec<u8>, value: Vec<u8>) -> Result<
    (),
    fjall::Error,
>
    requires
        storable_key(key@),
        storable_value(value@),
{
    ks.insert(key, value)
}

/// `Keyspace::get` of the key bytes, with the value found copied into a vector.
#[verifier::external_body]
pub(crate) fn keyspace_get(ks: &fjall::Keyspace, key: &[u8]) -> Result<Option<Vec<u8>>, fjall::Error>
    requires
        key_fits(key@),
{
    match ks.get(key) {
        Ok(Some(value)) => Ok(Some(value.to_vec())),
        Ok(None) => Ok(None),
        Err(e) => Err(e),
    }
}

/// `Keyspace::contains_key` of the key bytes.
#[verifier::external_body]
pub(crate) fn keyspace_contains_key(ks: &fjall::Keyspace, key: &[u8]) -> Result<bool, fjall::Error>
    requires
        key_fits(key@),
{
    ks.contains_key(key)
}

/// `Keyspace::size_of` of the key bytes.
#[verifier::external_body]
pub(crate) fn keyspace_size_of(ks: &fjall::Keyspace, key: &[u8]) -> Result<Option<u32>, fjall::Error>
    requires
        key_fits(key@),
{
    ks.size_of(key)
}

/// `Keyspace::iter`.
#[verifier::external_body]
pub(crate) fn keyspace_iter(ks: &fjall::Keyspace) -> fjall::Iter {
    ks.iter()
}

/// `Keyspace::range` between the two bounds of key bytes, which the iterator is made with.
#[verifier::external_body]
pub(crate) fn keyspace_range(
    ks: &fjall::Keyspace,
    start: KeyBound<Vec<u8>>,
    end: KeyBound<Vec<u8>>,
) -> (r: fjall::Iter)
    requires
        bound_fits(start@),
        bound_fits(end@),
    ensures
        iter_bounds(r) == (start@, end@),
{
    let start = match start {
        KeyBound::Included(k) => std::ops::Bound::Included(k),
        KeyBound::Excluded(k) => std::ops::Bound::Excluded(k),
        KeyBound::Unbounded => std::ops::Bound::Unbounded,
    };
    let end = match end {
        KeyBound::Included(k) => std::ops::Bound::Included(k),
        KeyBound::Excluded(k) => std::ops::Bound::Excluded(k),
        KeyBound::Unbounded => std::ops::Bound::Unbounded,
    };
    ks.range::<Vec<u8>, _>((start, end))
}

/// `Keyspace::prefix` of the prefix bytes, which the iterator is made with.
#[verifier::external_body]
pub(crate) fn keyspace_prefix(ks: &fjall::Keyspace, prefix: Vec<u8>) -> (r: fjall::Iter)
    requires
        key_fits(prefix@),
    ensures
        iter_prefix(r) == prefix@,
{
    ks.prefix(prefix)
}

/// `Keyspace::first_key_value`.
#[verifier::external_body]
pub(crate) fn keyspace_first_key_value(ks: &fjall::Keyspace) -> Option<fjall::Guard> {
    ks.first_key_value()
}

/// `Keyspace::last_key_value`.
#[verifier::external_body]
pub(crate) fn keyspace_last_key_value(ks: &fjall::Keyspace) -> Option<fjall::Guard> {
    ks.last_key_value()
}

/// `Guard::size`.
#[verifier::external_body]
pub(crate) fn guard_size(guard: fjall::Guard) -> Result<u32, fjall::Error> {
    guard.size()
}

/// `Guard::key`, with the key copied into a vector.
#[verifier::external_body]
pub(crate) fn guard_key(guard: fjall::Guard) -> Result<Vec<u8>, fjall::Error> {
    match guard.key() {
        Ok(key) => Ok(key.to_vec()),
        Err(e) => Err(e),
    }
}

/// `Guard::value`, with the value copied into a vector.
#[verifier::external_body]
pub(crate) fn guard_value(guard: fjall::Guard) -> Result<Vec<u8>, fjall::Error> {
    match guard.value() {
        Ok(value) => Ok(value.to_vec()),
        Err(e) => Err(e),
    }
}

/// `Guard::into_inner`, with the key and the value copied into vectors.
#[verifier::external_body]
pub(crate) fn guard_into_inner(guard: fjall::Guard) -> Result<(Vec<u8>, Vec<u8>), fjall::Error> {
    match guard.into_inner() {
        Ok((key, value)) => Ok((key.to_vec(), value.to_vec())),
        Err(e) => Err(e),
    }
}

/// `Iter::next`.
#[verifier::external_body]
pub(crate) fn iter_next(iter: &mut fjall::Iter) -> Option<fjall::Guard> {
    iter.next()
}

/// `Iter::next_back`.
#[verifier::external_body]
pub(crate) fn iter_next_back(iter: &mut fjall::Iter) -> Option<fjall::Guard> {
    iter.next_back()
}

/// `OptimisticTxKeyspace::clone`: a new handle to the same keyspace.
#[verifier::external_body]
pub(crate) fn tx_keyspace_clone(ks: &fjall::OptimisticTxKeyspace) -> (r: fjall::OptimisticTxKeyspace)
    ensures
        r == *ks,
{
    ks.clone()
}

/// `OptimisticTxKeyspace::inner`: the plain keyspace under the transactional one.
#[verifier::external_body]
pub(crate) fn tx_keyspace_inner(ks: &fjall::OptimisticTxKeyspace) -> (r: &fjall::Keyspace)
    ensures
        *r == tx_inner_keyspace(*ks),
{
    ks.inner()
}

/// `OptimisticTxKeyspace::insert` of the key and value bytes.
#[verifier::external_body]
pub(crate) fn tx_keyspace_insert(ks: &fjall::OptimisticTxKeyspace, key: Vec<u8>, value: Vec<u8>) -> Result<
    (),
    fjall::Error,
>
    requires
        storable_key(key@),
        storable_value(value@),
{
    ks.insert(key, value)
}

/// `OptimisticTxKeyspace::contains_key` of the key bytes.
#[verifier::external_body]
pub(crate) fn tx_keyspace_contains_key(ks: &fjall::OptimisticTxKeyspace, key: &[u8]) -> Result<
    bool,
    fjall::Error,
>
    requires
        key_fits(key@),
{
    ks.contains_key(key)
}

/// `OptimisticTxKeyspace::size_of` of the key bytes.
#[verifier::external_body]
pub(crate) fn tx_keyspace_size_of(ks: &fjall::OptimisticTxKeyspace, key: &[u8]) -> Result<
    Option<u32>,
    fjall::Error,
>
    requires
        key_fits(key@),
{
    ks.size_of(key)
}

/// `OptimisticTxKeyspace::remove` of the key bytes.
#[verifier::external_body]
pub(crate) fn tx_keyspace_remove(ks: &fjall::OptimisticTxKeyspace, key: Vec<u8>) -> Result<
    (),
    fjall::Error,
>
    requires
        storable_key(key@),
{
    ks.remove(key)
}

/// `OptimisticTxKeyspace::first_key_value`.
#[verifier::external_body]
pub(crate) fn tx_keyspace_first_key_value(ks: &fjall::OptimisticTxKeyspace) -> Option<fjall::Guard> {
    ks.first_key_value()
}

/// `OptimisticTxKeyspace::last_key_value`.
#[verifier::external_body]
pub(crate) fn tx_keyspace_last_key_value(ks: &fjall::OptimisticTxKeyspace) -> Option<fjall::Guard> {
    ks.last_key_value()
}

/// `OptimisticTxKeyspace::get` of the key bytes, with the value found copied into a vector.
#[verifier::external_body]
pub(crate) fn tx_keyspace_get(ks: &fjall::OptimisticTxKeyspace, key: &[u8]) -> Result<
    Option<Vec<u8>>,
    fjall::Error,
>
    requires
        key_fits(key@),
{
    match ks.get(key) {
        Ok(Some(value)) => Ok(Some(value.to_vec())),
        Ok(None) => Ok(None),
        Err(e) => Err(e),
    }
}

/// `OptimisticTxKeyspace::take` of the key bytes, with the value removed copied into a vector.
/// It removes only a key that is there, so the key is never stored empty.
#[verifier::external_body]
pub(crate) fn tx_keyspace_take(ks: &fjall::OptimisticTxKeyspace, key: Vec<u8>) -> Result<
    Option<Vec<u8>>,
    fjall::Error,
>
    requires
        key_fits(key@),
{
    match ks.take(key) {
        Ok(Some(value)) => Ok(Some(value.to_vec())),
        Ok(None) => Ok(None),
        Err(e) => Err(e),
    }
}

/// `OptimisticWriteTx::take` of the key bytes in the keyspace, with the value removed copied
/// into a vector. It reads the key as `get` does, so a key that the transaction wrote is read
/// from its own writes; it removes the key only where it found a value, and keeps its
/// durability.
#[verifier::external_body]
pub(crate) fn write_tx_take(tx: &mut fjall::OptimisticWriteTx, ks: &fjall::Keyspace, key: Vec<u8>) -> (r: Result<
    Option<Vec<u8>>,
    fjall::Error,
>)
    requires
        key_fits(key@),
    ensures
        r is Err ==> !tx_writes(*old(tx), *ks).contains_key(key@),
        r matches Ok(found) ==> (tx_writes(*old(tx), *ks).contains_key(key@) ==> found_bytes(found)
            == tx_writes(*old(tx), *ks)[key@]),
        r matches Ok(Some(_)) ==> tx_writes(*final(tx), *ks) == tx_writes(*old(tx), *ks).insert(
            key@,
            None,
        ),
        !(r matches Ok(Some(_))) ==> tx_writes(*final(tx), *ks) == tx_writes(*old(tx), *ks),
        tx_durability(*final(tx)) == tx_durability(*old(tx)),
{
    match tx.take(ks, key) {
        Ok(Some(value)) => Ok(Some(value.to_vec())),
        Ok(None) => Ok(None),
        Err(e) => Err(e),
    }
}

/// `OptimisticWriteTx::insert` of the key and value bytes in the keyspace: the transaction
/// now holds the value under the key, and keeps its durability.
#[verifier::external_body]
pub(crate) fn write_tx_insert(tx: &mut fjall::OptimisticWriteTx, ks: &fjall::Keyspace, key: Vec<u8>, value: Vec<u8>)
    requires
        storable_key(key@),
        storable_value(value@),
    ensures
        tx_writes(*final(tx), *ks) == tx_writes(*old(tx), *ks).insert(key@, Some(value@)),
        tx_durability(*final(tx)) == tx_durability(*old(tx)),
{
    tx.insert(ks, key, value)
}

/// `OptimisticWriteTx::remove` of the key bytes in the keyspace: the transaction now holds the
/// removal of the key, and keeps its durability.
#[verifier::external_body]
pub(crate) fn write_tx_remove(tx: &mut fjall::OptimisticWriteTx, ks: &fjall::Keyspace, key: Vec<u8>)
    requires
        storable_key(key@),
    ensures
        tx_writes(*final(tx), *ks) == tx_writes(*old(tx), *ks).insert(key@, None),
        tx_durability(*final(tx)) == tx_durability(*old(tx)),
{
    tx.remove(ks, key)
}

/// `OptimisticWriteTx::durability`: the same transaction, with the same writes, committing
/// with the given durability.
#[verifier::external_body]
pub(crate) fn write_tx_durability(tx: fjall::OptimisticWriteTx, mode: Option<fjall::PersistMode>) -> (r: fjall::OptimisticWriteTx)
    ensures
        tx_durability(r) == mode,
        forall|ks: fjall::Keyspace| tx_writes(r, ks) == tx_writes(tx, ks),
{
    tx.durability(mode)
}

/// `OptimisticWriteTx::commit`.
#[verifier::external_body]
pub(crate) fn write_tx_commit(tx: fjall::OptimisticWriteTx) -> Result<Result<(), fjall::Conflict>, fjall::Error> {
    tx.commit()
}

/// `Snapshot::get` through `fjall::Readable` of the key bytes, with the value found copied into a
/// vector.
#[verifier::external_body]
pub(crate) fn snapshot_get(reader: &fjall::Snapshot, keyspace: &fjall::Keyspace, key: &[u8]) -> (r: Result<
    Option<Vec<u8>>,
    fjall::Error,
>)
    requires
        key_fits(key@),
{
    match fjall::Readable::get(reader, keyspace, key) {
        Ok(Some(value)) => Ok(Some(value.to_vec())),
        Ok(None) => Ok(None),
        Err(e) => Err(e),
    }
}

/// `Snapshot::contains_key` through `fjall::Readable` of the key bytes.
#[verifier::external_body]
pub(crate) fn snapshot_contains_key(reader: &fjall::Snapshot, keyspace: &fjall::Keyspace, key: &[u8]) -> (r: Result<
    bool,
    fjall::Error,
>)
    requires
        key_fits(key@),
{
    fjall::Readable::contains_key(reader, keyspace, key)
}

/// `Snapshot::first_key_value` through `fjall::Readable`.
#[verifier::external_body]
pub(crate) fn snapshot_first_key_value(reader: &fjall::Snapshot, keyspace: &fjall::Keyspace) -> Option<fjall::Guard> {
    fjall::Readable::first_key_value(reader, keyspace)
}

/// `Snapshot::last_key_value` through `fjall::Readable`.
#[verifier::external_body]
pub(crate) fn snapshot_last_key_value(reader: &fjall::Snapshot, keyspace: &fjall::Keyspace) -> Option<fjall::Guard> {
    fjall::Readable::last_key_value(reader, keyspace)
}

/// `Snapshot::size_of` through `fjall::Readable` of the key bytes.
#[verifier::external_body]
pub(crate) fn snapshot_size_of(reader: &fjall::Snapshot, keyspace: &fjall::Keyspace, key: &[u8]) -> (r: Result<
    Option<u32>,
    fjall::Error,
>)
    requires
        key_fits(key@),
{
    fjall::Readable::size_of(reader, keyspace, key)
}

/// `Snapshot::iter` through `fjall::Readable`.
#[verifier::external_body]
pub(crate) fn snapshot_iter(reader: &fjall::Snapshot, keyspace: &fjall::Keyspace) -> fjall::Iter {
    fjall::Readable::iter(reader, keyspace)
}

/// `Snapshot::range` through `fjall::Readable` between the two bounds of key bytes, which the
/// iterator is made with.
#[verifier::external_body]
pub(crate) fn snapshot_range(
    reader: &fjall::Snapshot,
    keyspace: &fjall::Keyspace,
    start: KeyBound<Vec<u8>>,
    end: KeyBound<Vec<u8>>,
) -> (r: fjall::Iter)
    requires
        bound_fits(start@),
        bound_fits(end@),
    ensures
        iter_bounds(r) == (start@, end@),
{
    let start = match start {
        KeyBound::Included(k) => std::ops::Bound::Included(k),
        KeyBound::Excluded(k) => std::ops::Bound::Excluded(k),
        KeyBound::Unbounded => std::ops::Bound::Unbounded,
    };
    let end = match end {
        KeyBound::Included(k) => std::ops::Bound::Included(k),
        KeyBound::Excluded(k) => std::ops::Bound::Excluded(k),
        KeyBound::Unbounded => std::ops::Bound::Unbounded,
    };
    fjall::Readable::range::<Vec<u8>, _>(reader, keyspace, (start, end))
}

/// `Snapshot::prefix` through `fjall::Readable` of the prefix bytes, which the iterator is made
/// with.
#[verifier::external_body]
pub(crate) fn snapshot_prefix(reader: &fjall::Snapshot, keyspace: &fjall::Keyspace, prefix: Vec<u8>) -> (r: fjall::Iter)
    requires
        key_fits(prefix@),
    ensures
        iter_prefix(r) == prefix@,
{
    fjall::Readable::prefix(reader, keyspace, prefix)
}

/// `Snapshot::is_empty` through `fjall::Readable`.
#[verifier::external_body]
pub(crate) fn snapshot_is_empty(reader: &fjall::Snapshot, keyspace: &fjall::Keyspace) -> Result<bool, fjall::Error> {
    fjall::Readable::is_empty(reader, keyspace)
}

/// `Snapshot::len` through `fjall::Readable`.
#[verifier::external_body]
pub(crate) fn snapshot_len(reader: &fjall::Snapshot, keyspace: &fjall::Keyspace) -> Result<usize, fjall::Error> {
    fjall::Readable::len(reader, keyspace)
}

/// `OptimisticWriteTx::get` through `fjall::Readable` of the key bytes, with the value found copied into a
/// vector. A key that the transaction
/// wrote is read from its own writes.
#[verifier::external_body]
pub(crate) fn write_tx_get(reader: &fjall::OptimisticWriteTx, keyspace: &fjall::Keyspace, key: &[u8]) -> (r: Result<
    Option<Vec<u8>>,
    fjall::Error,
>)
    requires
        key_fits(key@),
    ensures
        r is Err ==> !tx_writes(*reader, *keyspace).contains_key(key@),
        r matches Ok(found) ==> (tx_writes(*reader, *keyspace).contains_key(key@) ==> found_bytes(found)
            == tx_writes(*reader, *keyspace)[key@]),
{
    match fjall::Readable::get(reader, keyspace, key) {
        Ok(Some(value)) => Ok(Some(value.to_vec())),
        Ok(None) => Ok(None),
        Err(e) => Err(e),
    }
}

/// `OptimisticWriteTx::contains_key` through `fjall::Readable` of the key bytes. A key that the transaction
/// wrote is read from its own writes.
#[verifier::external_body]
pub(crate) fn write_tx_contains_key(reader: &fjall::OptimisticWriteTx, keyspace: &fjall::Keyspace, key: &[u8]) -> (r: Result<
    bool,
    fjall::Error,
>)
    requires
        key_fits(key@),
    ensures
        r is Err ==> !tx_writes(*reader, *keyspace).contains_key(key@),
        r matches Ok(b) ==> (tx_writes(*reader, *keyspace).contains_key(key@) ==> b == tx_writes(*reader, *keyspace)[key@] is Some),
{
    fjall::Readable::contains_key(reader, keyspace, key)
}

/// `OptimisticWriteTx::first_key_value` through `fjall::Readable`.
#[verifier::external_body]
pub(crate) fn write_tx_first_key_value(reader: &fjall::OptimisticWriteTx, keyspace: &fjall::Keyspace) -> Option<fjall::Guard> {
    fjall::Readable::first_key_value(reader, keyspace)
}

/// `OptimisticWriteTx::last_key_value` through `fjall::Readable`.
#[verifier::external_body]
pub(crate) fn write_tx_last_key_value(reader: &fjall::OptimisticWriteTx, keyspace: &fjall::Keyspace) -> Option<fjall::Guard> {
    fjall::Readable::last_key_value(reader, keyspace)
}

/// `OptimisticWriteTx::size_of` through `fjall::Readable` of the key bytes. A key that the transaction
/// wrote is read from its own writes.
#[verifier::external_body]
pub(crate) fn write_tx_size_of(reader: &fjall::OptimisticWriteTx, keyspace: &fjall::Keyspace, key: &[u8]) -> (r: Result<
    Option<u32>,
    fjall::Error,
>)
    requires
        key_fits(key@),
    ensures
        r is Err ==> !tx_writes(*reader, *keyspace).contains_key(key@),
        r matches Ok(size) ==> (tx_writes(*reader, *keyspace).contains_key(key@) ==> size == match tx_writes(*reader, *keyspace)[key@] {
            Some(value) => Some(value.len() as u32),
            None => None,
        }),
{
    fjall::Readable::size_of(reader, keyspace, key)
}

/// `OptimisticWriteTx::iter` through `fjall::Readable`.
#[verifier::external_body]
pub(crate) fn write_tx_iter(reader: &fjall::OptimisticWriteTx, keyspace: &fjall::Keyspace) -> fjall::Iter {
    fjall::Readable::iter(reader, keyspace)
}

/// `OptimisticWriteTx::range` through `fjall::Readable` between the two bounds of key bytes, which the
/// iterator is made with.
#[verifier::external_body]
pub(crate) fn write_tx_range(
    reader: &fjall::OptimisticWriteTx,
    keyspace: &fjall::Keyspace,
    start: KeyBound<Vec<u8>>,
    end: KeyBound<Vec<u8>>,
) -> (r: fjall::Iter)
    requires
        bound_fits(start@),
        bound_fits(end@),
    ensures
        iter_bounds(r) == (start@, end@),
{
    let start = match start {
        KeyBound::Included(k) => std::ops::Bound::Included(k),
        KeyBound::Excluded(k) => std::ops::Bound::Excluded(k),
        KeyBound::Unbounded => std::ops::Bound::Unbounded,
    };
    let end = match end {
        KeyBound::Included(k) => std::ops::Bound::Included(k),
        KeyBound::Excluded(k) => std::ops::Bound::Excluded(k),
        KeyBound::Unbounded => std::ops::Bound::Unbounded,
    };
    fjall::Readable::range::<Vec<u8>, _>(reader, keyspace, (start, end))
}

/// `OptimisticWriteTx::prefix` through `fjall::Readable` of the prefix bytes, which the iterator is made
/// with.
#[verifier::external_body]
pub(crate) fn write_tx_prefix(reader: &fjall::OptimisticWriteTx, keyspace: &fjall::Keyspace, prefix: Vec<u8>) -> (r: fjall::Iter)
    requires
        key_fits(prefix@),
    ensures
        iter_prefix(r) == prefix@,
{
    fjall::Readable::prefix(reader, keyspace, prefix)
}

/// `OptimisticWriteTx::is_empty` through `fjall::Readable`.
#[verifier::external_body]
pub(crate) fn write_tx_is_empty(reader: &fjall::OptimisticWriteTx, keyspace: &fjall::Keyspace) -> Result<bool, fjall::Error> {
    fjall::Readable::is_empty(reader, keyspace)
}

/// `OptimisticWriteTx::len` through `fjall::Readable`.
#[verifier::external_body]
pub(crate) fn write_tx_len(reader: &fjall::OptimisticWriteTx, keyspace: &fjall::Keyspace) -> Result<usize, fjall::Error> {
    fjall::Readable::len(reader, keyspace)
}

/// `SingleWriterWriteTx::get` through `fjall::Readable` of the key bytes, with the value found copied into a
/// vector. A key that the transaction
/// wrote is read from its own writes.
#[verifier::external_body]
pub(crate) fn single_writer_tx_get(reader: &fjall::SingleWriterWriteTx, keyspace: &fjall::Keyspace, key: &[u8]) -> (r: Result<
    Option<Vec<u8>>,
    fjall::Error,
>)
    requires
        key_fits(key@),
    ensures
        r is Err ==> !single_writer_writes(*reader, *keyspace).contains_key(key@),
        r matches Ok(found) ==> (single_writer_writes(*reader, *keyspace).contains_key(key@) ==> found_bytes(found)
            == single_writer_writes(*reader, *keyspace)[key@]),
{
    match fjall::Readable::get(reader, keyspace, key) {
        Ok(Some(value)) => Ok(Some(value.to_vec())),
        Ok(None) => Ok(None),
        Err(e) => Err(e),
    }
}

/// `SingleWriterWriteTx::contains_key` through `fjall::Readable` of the key bytes. A key that the transaction
/// wrote is read from its own writes.
#[verifier::external_body]
pub(crate) fn single_writer_tx_contains_key(reader: &fjall::SingleWriterWriteTx, keyspace: &fjall::Keyspace, key: &[u8]) -> (r: Result<
    bool,
    fjall::Error,
>)
    requires
        key_fits(key@),
    ensures
        r is Err ==> !single_writer_writes(*reader, *keyspace).contains_key(key@),
        r matches Ok(b) ==> (single_writer_writes(*reader, *keyspace).contains_key(key@) ==> b == single_writer_writes(*reader, *keyspace)[key@] is Some),
{
    fjall::Readable::contains_key(reader, keyspace, key)
}

/// `SingleWriterWriteTx::first_key_value` through `fjall::Readable`.
#[verifier::external_body]
pub(crate) fn single_writer_tx_first_key_value(reader: &fjall::SingleWriterWriteTx, keyspace: &fjall::Keyspace) -> Option<fjall::Guard> {
    fjall::Readable::first_key_value(reader, keyspace)
}

/// `SingleWriterWriteTx::last_key_value` through `fjall::Readable`.
#[verifier::external_body]
pub(crate) fn single_writer_tx_last_key_value(reader: &fjall::SingleWriterWriteTx, keyspace: &fjall::Keyspace) -> Option<fjall::Guard> {
    fjall::Readable::last_key_value(reader, keyspace)
}

/// `SingleWriterWriteTx::size_of` through `fjall::Readable` of the key bytes. A key that the transaction
/// wrote is read from its own writes.
#[verifier::external_body]
pub(crate) fn single_writer_tx_size_of(reader: &fjall::SingleWriterWriteTx, keyspace: &fjall::Keyspace, key: &[u8]) -> (r: Result<
    Option<u32>,
    fjall::Error,
>)
    requires
        key_fits(key@),
    ensures
        r is Err ==> !single_writer_writes(*reader, *keyspace).contains_key(key@),
        r matches Ok(size) ==> (single_writer_writes(*reader, *keyspace).contains_key(key@) ==> size == match single_writer_writes(*reader, *keyspace)[key@] {
            Some(value) => Some(value.len() as u32),
            None => None,
        }),
{
    fjall::Readable::size_of(reader, keyspace, key)
}

/// `SingleWriterWriteTx::iter` through `fjall::Readable`.
#[verifier::external_body]
pub(crate) fn single_writer_tx_iter(reader: &fjall::SingleWriterWriteTx, keyspace: &fjall::Keyspace) -> fjall::Iter {
    fjall::Readable::iter(reader, keyspace)
}

/// `SingleWriterWriteTx::range` through `fjall::Readable` between the two bounds of key bytes, which the
/// iterator is made with.
#[verifier::external_body]
pub(crate) fn single_writer_tx_range(
    reader: &fjall::SingleWriterWriteTx,
    keyspace: &fjall::Keyspace,
    start: KeyBound<Vec<u8>>,
    end: KeyBound<Vec<u8>>,
) -> (r: fjall::Iter)
    requires
        bound_fits(start@),
        bound_fits(end@),
    ensures
        iter_bounds(r) == (start@, end@),
{
    let start = match start {
        KeyBound::Included(k) => std::ops::Bound::Included(k),
        KeyBound::Excluded(k) => std::ops::Bound::Excluded(k),
        KeyBound::Unbounded => std::ops::Bound::Unbounded,
    };
    let end = match end {
        KeyBound::Included(k) => std::ops::Bound::Included(k),
        KeyBound::Excluded(k) => std::ops::Bound::Excluded(k),
        KeyBound::Unbounded => std::ops::Bound::Unbounded,
    };
    fjall::Readable::range::<Vec<u8>, _>(reader, keyspace, (start, end))
}

/// `SingleWriterWriteTx::prefix` through `fjall::Readable` of the prefix bytes, which the iterator is made
/// with.
#[verifier::external_body]
pub(crate) fn single_writer_tx_prefix(reader: &fjall::SingleWriterWriteTx, keyspace: &fjall::Keyspace, prefix: Vec<u8>) -> (r: fjall::Iter)
    requires
        key_fits(prefix@),
    ensures
        iter_prefix(r) == prefix@,
{
    fjall::Readable::prefix(reader, keyspace, prefix)
}

/// `SingleWriterWriteTx::is_empty` through `fjall::Readable`.
#[verifier::external_body]
pub(crate) fn single_writer_tx_is_empty(reader: &fjall::SingleWriterWriteTx, keyspace: &fjall::Keyspace) -> Result<bool, fjall::Error> {
    fjall::Readable::is_empty(reader, keyspace)
}

/// `SingleWriterWriteTx::len` through `fjall::Readable`.
#[verifier::external_body]
pub(crate) fn single_writer_tx_len(reader: &fjall::SingleWriterWriteTx, keyspace: &fjall::Keyspace) -> Result<usize, fjall::Error> {
    fjall::Readable::len(reader, keyspace)
}

} // verus!
