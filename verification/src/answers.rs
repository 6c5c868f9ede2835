//! What fjall gave to each call of the library into it. `X_gave(args, raw)` holds where `raw`
//! is an answer that the call `X` gave on those arguments, the byte arguments taken by their
//! contents; nothing else makes it hold, so a function whose contract speaks of it made that call.
use crate::raw::{
    guard_into_inner,
    guard_key,
    guard_size,
    guard_value,
    keyspace_contains_key,
    keyspace_first_key_value,
    keyspace_get,
    keyspace_insert,
    keyspace_iter,
    keyspace_last_key_value,
    keyspace_size_of,
    single_writer_tx_contains_key,
    single_writer_tx_first_key_value,
    single_writer_tx_get,
    single_writer_tx_is_empty,
    single_writer_tx_iter,
    single_writer_tx_last_key_value,
    single_writer_tx_len,
    single_writer_tx_size_of,
    snapshot_contains_key,
    snapshot_first_key_value,
    snapshot_get,
    snapshot_is_empty,
    snapshot_iter,
    snapshot_last_key_value,
    snapshot_len,
    snapshot_size_of,
    tx_keyspace_contains_key,
    tx_keyspace_first_key_value,
    tx_keyspace_get,
    tx_keyspace_insert,
    tx_keyspace_last_key_value,
    tx_keyspace_remove,
    tx_keyspace_size_of,
    tx_keyspace_take,
    write_tx_commit,
    write_tx_contains_key,
    write_tx_first_key_value,
    write_tx_get,
    write_tx_is_empty,
    write_tx_iter,
    write_tx_last_key_value,
    write_tx_len,
    write_tx_size_of,
};
use vstd::prelude::*;

verus! {

/// Whether `raw` is an answer that `Keyspace::insert` of the key and value bytes gave.
pub closed spec fn keyspace_insert_gave(ks: fjall::Keyspace, key: Seq<u8>, value: Seq<u8>, raw: Result<(), fjall::Error>) -> bool {
    exists|key_bytes: Vec<u8>, value_bytes: Vec<u8>| key_bytes@ == key && value_bytes@ == value && #[trigger] call_ensures(keyspace_insert, (&ks, key_bytes, value_bytes), raw)
}

pub(crate) proof fn lemma_keyspace_insert_gave(ks: &fjall::Keyspace, key: Vec<u8>, value: Vec<u8>, raw: Result<(), fjall::Error>)
    requires
        call_ensures(keyspace_insert, (ks, key, value), raw),
    ensures
        keyspace_insert_gave(*ks, key@, value@, raw),
{
}

/// Whether `raw` is an answer that `Keyspace::get` of the key bytes gave.
pub closed spec fn keyspace_get_gave(ks: fjall::Keyspace, key: Seq<u8>, raw: Result<Option<Vec<u8>>, fjall::Error>) -> bool {
    exists|key_bytes: &[u8]| key_bytes@ == key && #[trigger] call_ensures(keyspace_get, (&ks, key_bytes), raw)
}

pub(crate) proof fn lemma_keyspace_get_gave(ks: &fjall::Keyspace, key: &[u8], raw: Result<Option<Vec<u8>>, fjall::Error>)
    requires
        call_ensures(keyspace_get, (ks, key), raw),
    ensures
        keyspace_get_gave(*ks, key@, raw),
{
}

/// Whether `raw` is an answer that `Keyspace::contains_key` of the key bytes gave.
pub closed spec fn keyspace_contains_key_gave(ks: fjall::Keyspace, key: Seq<u8>, raw: Result<bool, fjall::Error>) -> bool {
    exists|key_bytes: &[u8]| key_bytes@ == key && #[trigger] call_ensures(keyspace_contains_key, (&ks, key_bytes), raw)
}

pub(crate) proof fn lemma_keyspace_contains_key_gave(ks: &fjall::Keyspace, key: &[u8], raw: Result<bool, fjall::Error>)
    requires
        call_ensures(keyspace_contains_key, (ks, key), raw),
    ensures
        keyspace_contains_key_gave(*ks, key@, raw),
{
}

/// Whether `raw` is an answer that `Keyspace::size_of` of the key bytes gave.
pub closed spec fn keyspace_size_of_gave(ks: fjall::Keyspace, key: Seq<u8>, raw: Result<Option<u32>, fjall::Error>) -> bool {
    exists|key_bytes: &[u8]| key_bytes@ == key && #[trigger] call_ensures(keyspace_size_of, (&ks, key_bytes), raw)
}

pub(crate) proof fn lemma_keyspace_size_of_gave(ks: &fjall::Keyspace, key: &[u8], raw: Result<Option<u32>, fjall::Error>)
    requires
        call_ensures(keyspace_size_of, (ks, key), raw),
    ensures
        keyspace_size_of_gave(*ks, key@, raw),
{
}

/// Whether `raw` is an answer that `Keyspace::iter` gave.
pub closed spec fn keyspace_iter_gave(ks: fjall::Keyspace, raw: fjall::Iter) -> bool {
    call_ensures(keyspace_iter, (&ks,), raw)
}

pub(crate) proof fn lemma_keyspace_iter_gave(ks: &fjall::Keyspace, raw: fjall::Iter)
    requires
        call_ensures(keyspace_iter, (ks,), raw),
    ensures
        keyspace_iter_gave(*ks, raw),
{
}

/// Whether `raw` is an answer that `Keyspace::first_key_value` gave.
pub closed spec fn keyspace_first_key_value_gave(ks: fjall::Keyspace, raw: Option<fjall::Guard>) -> bool {
    call_ensures(keyspace_first_key_value, (&ks,), raw)
}

pub(crate) proof fn lemma_keyspace_first_key_value_gave(ks: &fjall::Keyspace, raw: Option<fjall::Guard>)
    requires
        call_ensures(keyspace_first_key_value, (ks,), raw),
    ensures
        keyspace_first_key_value_gave(*ks, raw),
{
}

/// Whether `raw` is an answer that `Keyspace::last_key_value` gave.
pub closed spec fn keyspace_last_key_value_gave(ks: fjall::Keyspace, raw: Option<fjall::Guard>) -> bool {
    call_ensures(keyspace_last_key_value, (&ks,), raw)
}

pub(crate) proof fn lemma_keyspace_last_key_value_gave(ks: &fjall::Keyspace, raw: Option<fjall::Guard>)
    requires
        call_ensures(keyspace_last_key_value, (ks,), raw),
    ensures
        keyspace_last_key_value_gave(*ks, raw),
{
}

/// Whether `raw` is an answer that `Guard::size` gave.
pub closed spec fn guard_size_gave(guard: fjall::Guard, raw: Result<u32, fjall::Error>) -> bool {
    call_ensures(guard_size, (guard,), raw)
}

pub(crate) proof fn lemma_guard_size_gave(guard: fjall::Guard, raw: Result<u32, fjall::Error>)
    requires
        call_ensures(guard_size, (guard,), raw),
    ensures
        guard_size_gave(guard, raw),
{
}

/// Whether `raw` is an answer that `Guard::key` gave.
pub closed spec fn guard_key_gave(guard: fjall::Guard, raw: Result<Vec<u8>, fjall::Error>) -> bool {
    call_ensures(guard_key, (guard,), raw)
}

pub(crate) proof fn lemma_guard_key_gave(guard: fjall::Guard, raw: Result<Vec<u8>, fjall::Error>)
    requires
        call_ensures(guard_key, (guard,), raw),
    ensures
        guard_key_gave(guard, raw),
{
}

/// Whether `raw` is an answer that `Guard::value` gave.
pub closed spec fn guard_value_gave(guard: fjall::Guard, raw: Result<Vec<u8>, fjall::Error>) -> bool {
    call_ensures(guard_value, (guard,), raw)
}

pub(crate) proof fn lemma_guard_value_gave(guard: fjall::Guard, raw: Result<Vec<u8>, fjall::Error>)
    requires
        call_ensures(guard_value, (guard,), raw),
    ensures
        guard_value_gave(guard, raw),
{
}

/// Whether `raw` is an answer that `Guard::into_inner` gave.
pub closed spec fn guard_into_inner_gave(guard: fjall::Guard, raw: Result<(Vec<u8>, Vec<u8>), fjall::Error>) -> bool {
    call_ensures(guard_into_inner, (guard,), raw)
}

pub(crate) proof fn lemma_guard_into_inner_gave(guard: fjall::Guard, raw: Result<(Vec<u8>, Vec<u8>), fjall::Error>)
    requires
        call_ensures(guard_into_inner, (guard,), raw),
    ensures
        guard_into_inner_gave(guard, raw),
{
}

/// Whether `raw` is an answer that `OptimisticTxKeyspace::insert` of the key and value bytes gave.
pub closed spec fn tx_keyspace_insert_gave(ks: fjall::OptimisticTxKeyspace, key: Seq<u8>, value: Seq<u8>, raw: Result<(), fjall::Error>) -> bool {
    exists|key_bytes: Vec<u8>, value_bytes: Vec<u8>| key_bytes@ == key && value_bytes@ == value && #[trigger] call_ensures(tx_keyspace_insert, (&ks, key_bytes, value_bytes), raw)
}

pub(crate) proof fn lemma_tx_keyspace_insert_gave(ks: &fjall::OptimisticTxKeyspace, key: Vec<u8>, value: Vec<u8>, raw: Result<(), fjall::Error>)
    requires
        call_ensures(tx_keyspace_insert, (ks, key, value), raw),
    ensures
        tx_keyspace_insert_gave(*ks, key@, value@, raw),
{
}

/// Whether `raw` is an answer that `OptimisticTxKeyspace::get` of the key bytes gave.
pub closed spec fn tx_keyspace_get_gave(ks: fjall::OptimisticTxKeyspace, key: Seq<u8>, raw: Result<Option<Vec<u8>>, fjall::Error>) -> bool {
    exists|key_bytes: &[u8]| key_bytes@ == key && #[trigger] call_ensures(tx_keyspace_get, (&ks, key_bytes), raw)
}

pub(crate) proof fn lemma_tx_keyspace_get_gave(ks: &fjall::OptimisticTxKeyspace, key: &[u8], raw: Result<Option<Vec<u8>>, fjall::Error>)
    requires
        call_ensures(tx_keyspace_get, (ks, key), raw),
    ensures
        tx_keyspace_get_gave(*ks, key@, raw),
{
}

/// Whether `raw` is an answer that `OptimisticTxKeyspace::contains_key` of the key bytes gave.
pub closed spec fn tx_keyspace_contains_key_gave(ks: fjall::OptimisticTxKeyspace, key: Seq<u8>, raw: Result<bool, fjall::Error>) -> bool {
    exists|key_bytes: &[u8]| key_bytes@ == key && #[trigger] call_ensures(tx_keyspace_contains_key, (&ks, key_bytes), raw)
}

pub(crate) proof fn lemma_tx_keyspace_contains_key_gave(ks: &fjall::OptimisticTxKeyspace, key: &[u8], raw: Result<bool, fjall::Error>)
    requires
        call_ensures(tx_keyspace_contains_key, (ks, key), raw),
    ensures
        tx_keyspace_contains_key_gave(*ks, key@, raw),
{
}

/// Whether `raw` is an answer that `OptimisticTxKeyspace::size_of` of the key bytes gave.
pub closed spec fn tx_keyspace_size_of_gave(ks: fjall::OptimisticTxKeyspace, key: Seq<u8>, raw: Result<Option<u32>, fjall::Error>) -> bool {
    exists|key_bytes: &[u8]| key_bytes@ == key && #[trigger] call_ensures(tx_keyspace_size_of, (&ks, key_bytes), raw)
}

pub(crate) proof fn lemma_tx_keyspace_size_of_gave(ks: &fjall::OptimisticTxKeyspace, key: &[u8], raw: Result<Option<u32>, fjall::Error>)
    requires
        call_ensures(tx_keyspace_size_of, (ks, key), raw),
    ensures
        tx_keyspace_size_of_gave(*ks, key@, raw),
{
}

/// Whether `raw` is an answer that `OptimisticTxKeyspace::remove` of the key bytes gave.
pub closed spec fn tx_keyspace_remove_gave(ks: fjall::OptimisticTxKeyspace, key: Seq<u8>, raw: Result<(), fjall::Error>) -> bool {
    exists|key_bytes: Vec<u8>| key_bytes@ == key && #[trigger] call_ensures(tx_keyspace_remove, (&ks, key_bytes), raw)
}

pub(crate) proof fn lemma_tx_keyspace_remove_gave(ks: &fjall::OptimisticTxKeyspace, key: Vec<u8>, raw: Result<(), fjall::Error>)
    requires
        call_ensures(tx_keyspace_remove, (ks, key), raw),
    ensures
        tx_keyspace_remove_gave(*ks, key@, raw),
{
}

/// Whether `raw` is an answer that `OptimisticTxKeyspace::take` of the key bytes gave.
pub closed spec fn tx_keyspace_take_gave(ks: fjall::OptimisticTxKeyspace, key: Seq<u8>, raw: Result<Option<Vec<u8>>, fjall::Error>) -> bool {
    exists|key_bytes: Vec<u8>| key_bytes@ == key && #[trigger] call_ensures(tx_keyspace_take, (&ks, key_bytes), raw)
}

pub(crate) proof fn lemma_tx_keyspace_take_gave(ks: &fjall::OptimisticTxKeyspace, key: Vec<u8>, raw: Result<Option<Vec<u8>>, fjall::Error>)
    requires
        call_ensures(tx_keyspace_take, (ks, key), raw),
    ensures
        tx_keyspace_take_gave(*ks, key@, raw),
{
}

/// Whether `raw` is an answer that `OptimisticTxKeyspace::first_key_value` gave.
pub closed spec fn tx_keyspace_first_key_value_gave(ks: fjall::OptimisticTxKeyspace, raw: Option<fjall::Guard>) -> bool {
    call_ensures(tx_keyspace_first_key_value, (&ks,), raw)
}

pub(crate) proof fn lemma_tx_keyspace_first_key_value_gave(ks: &fjall::OptimisticTxKeyspace, raw: Option<fjall::Guard>)
    requires
        call_ensures(tx_keyspace_first_key_value, (ks,), raw),
    ensures
        tx_keyspace_first_key_value_gave(*ks, raw),
{
}

/// Whether `raw` is an answer that `OptimisticTxKeyspace::last_key_value` gave.
pub closed spec fn tx_keyspace_last_key_value_gave(ks: fjall::OptimisticTxKeyspace, raw: Option<fjall::Guard>) -> bool {
    call_ensures(tx_keyspace_last_key_value, (&ks,), raw)
}

pub(crate) proof fn lemma_tx_keyspace_last_key_value_gave(ks: &fjall::OptimisticTxKeyspace, raw: Option<fjall::Guard>)
    requires
        call_ensures(tx_keyspace_last_key_value, (ks,), raw),
    ensures
        tx_keyspace_last_key_value_gave(*ks, raw),
{
}

/// Whether `raw` is an answer that `OptimisticWriteTx::commit` gave.
pub closed spec fn write_tx_commit_gave(tx: fjall::OptimisticWriteTx, raw: Result<Result<(), fjall::Conflict>, fjall::Error>) -> bool {
    call_ensures(write_tx_commit, (tx,), raw)
}

pub(crate) proof fn lemma_write_tx_commit_gave(tx: fjall::OptimisticWriteTx, raw: Result<Result<(), fjall::Conflict>, fjall::Error>)
    requires
        call_ensures(write_tx_commit, (tx,), raw),
    ensures
        write_tx_commit_gave(tx, raw),
{
}

/// Whether `raw` is an answer that `Snapshot::get` of the key bytes gave.
pub closed spec fn snapshot_get_gave(reader: fjall::Snapshot, keyspace: fjall::Keyspace, key: Seq<u8>, raw: Result<Option<Vec<u8>>, fjall::Error>) -> bool {
    exists|key_bytes: &[u8]| key_bytes@ == key && #[trigger] call_ensures(snapshot_get, (&reader, &keyspace, key_bytes), raw)
}

pub(crate) proof fn lemma_snapshot_get_gave(reader: &fjall::Snapshot, keyspace: &fjall::Keyspace, key: &[u8], raw: Result<Option<Vec<u8>>, fjall::Error>)
    requires
        call_ensures(snapshot_get, (reader, keyspace, key), raw),
    ensures
        snapshot_get_gave(*reader, *keyspace, key@, raw),
{
}

/// Whether `raw` is an answer that `Snapshot::contains_key` of the key bytes gave.
pub closed spec fn snapshot_contains_key_gave(reader: fjall::Snapshot, keyspace: fjall::Keyspace, key: Seq<u8>, raw: Result<bool, fjall::Error>) -> bool {
    exists|key_bytes: &[u8]| key_bytes@ == key && #[trigger] call_ensures(snapshot_contains_key, (&reader, &keyspace, key_bytes), raw)
}

pub(crate) proof fn lemma_snapshot_contains_key_gave(reader: &fjall::Snapshot, keyspace: &fjall::Keyspace, key: &[u8], raw: Result<bool, fjall::Error>)
    requires
        call_ensures(snapshot_contains_key, (reader, keyspace, key), raw),
    ensures
        snapshot_contains_key_gave(*reader, *keyspace, key@, raw),
{
}

/// Whether `raw` is an answer that `Snapshot::size_of` of the key bytes gave.
pub closed spec fn snapshot_size_of_gave(reader: fjall::Snapshot, keyspace: fjall::Keyspace, key: Seq<u8>, raw: Result<Option<u32>, fjall::Error>) -> bool {
    exists|key_bytes: &[u8]| key_bytes@ == key && #[trigger] call_ensures(snapshot_size_of, (&reader, &keyspace, key_bytes), raw)
}

pub(crate) proof fn lemma_snapshot_size_of_gave(reader: &fjall::Snapshot, keyspace: &fjall::Keyspace, key: &[u8], raw: Result<Option<u32>, fjall::Error>)
    requires
        call_ensures(snapshot_size_of, (reader, keyspace, key), raw),
    ensures
        snapshot_size_of_gave(*reader, *keyspace, key@, raw),
{
}

/// Whether `raw` is an answer that `Snapshot::first_key_value` gave.
pub closed spec fn snapshot_first_key_value_gave(reader: fjall::Snapshot, keyspace: fjall::Keyspace, raw: Option<fjall::Guard>) -> bool {
    call_ensures(snapshot_first_key_value, (&reader, &keyspace), raw)
}

pub(crate) proof fn lemma_snapshot_first_key_value_gave(reader: &fjall::Snapshot, keyspace: &fjall::Keyspace, raw: Option<fjall::Guard>)
    requires
        call_ensures(snapshot_first_key_value, (reader, keyspace), raw),
    ensures
        snapshot_first_key_value_gave(*reader, *keyspace, raw),
{
}

/// Whether `raw` is an answer that `Snapshot::last_key_value` gave.
pub closed spec fn snapshot_last_key_value_gave(reader: fjall::Snapshot, keyspace: fjall::Keyspace, raw: Option<fjall::Guard>) -> bool {
    call_ensures(snapshot_last_key_value, (&reader, &keyspace), raw)
}

pub(crate) proof fn lemma_snapshot_last_key_value_gave(reader: &fjall::Snapshot, keyspace: &fjall::Keyspace, raw: Option<fjall::Guard>)
    requires
        call_ensures(snapshot_last_key_value, (reader, keyspace), raw),
    ensures
        snapshot_last_key_value_gave(*reader, *keyspace, raw),
{
}

/// Whether `raw` is an answer that `Snapshot::iter` gave.
pub closed spec fn snapshot_iter_gave(reader: fjall::Snapshot, keyspace: fjall::Keyspace, raw: fjall::Iter) -> bool {
    call_ensures(snapshot_iter, (&reader, &keyspace), raw)
}

pub(crate) proof fn lemma_snapshot_iter_gave(reader: &fjall::Snapshot, keyspace: &fjall::Keyspace, raw: fjall::Iter)
    requires
        call_ensures(snapshot_iter, (reader, keyspace), raw),
    ensures
        snapshot_iter_gave(*reader, *keyspace, raw),
{
}

/// Whether `raw` is an answer that `Snapshot::is_empty` gave.
pub closed spec fn snapshot_is_empty_gave(reader: fjall::Snapshot, keyspace: fjall::Keyspace, raw: Result<bool, fjall::Error>) -> bool {
    call_ensures(snapshot_is_empty, (&reader, &keyspace), raw)
}

pub(crate) proof fn lemma_snapshot_is_empty_gave(reader: &fjall::Snapshot, keyspace: &fjall::Keyspace, raw: Result<bool, fjall::Error>)
    requires
        call_ensures(snapshot_is_empty, (reader, keyspace), raw),
    ensures
        snapshot_is_empty_gave(*reader, *keyspace, raw),
{
}

/// Whether `raw` is an answer that `Snapshot::len` gave.
pub closed spec fn snapshot_len_gave(reader: fjall::Snapshot, keyspace: fjall::Keyspace, raw: Result<usize, fjall::Error>) -> bool {
    call_ensures(snapshot_len, (&reader, &keyspace), raw)
}

pub(crate) proof fn lemma_snapshot_len_gave(reader: &fjall::Snapshot, keyspace: &fjall::Keyspace, raw: Result<usize, fjall::Error>)
    requires
        call_ensures(snapshot_len, (reader, keyspace), raw),
    ensures
        snapshot_len_gave(*reader, *keyspace, raw),
{
}

/// Whether `raw` is an answer that `OptimisticWriteTx::get` of the key bytes gave.
pub closed spec fn write_tx_get_gave(reader: fjall::OptimisticWriteTx, keyspace: fjall::Keyspace, key: Seq<u8>, raw: Result<Option<Vec<u8>>, fjall::Error>) -> bool {
    exists|key_bytes: &[u8]| key_bytes@ == key && #[trigger] call_ensures(write_tx_get, (&reader, &keyspace, key_bytes), raw)
}

pub(crate) proof fn lemma_write_tx_get_gave(reader: &fjall::OptimisticWriteTx, keyspace: &fjall::Keyspace, key: &[u8], raw: Result<Option<Vec<u8>>, fjall::Error>)
    requires
        call_ensures(write_tx_get, (reader, keyspace, key), raw),
    ensures
        write_tx_get_gave(*reader, *keyspace, key@, raw),
{
}

/// Whether `raw` is an answer that `OptimisticWriteTx::contains_key` of the key bytes gave.
pub closed spec fn write_tx_contains_key_gave(reader: fjall::OptimisticWriteTx, keyspace: fjall::Keyspace, key: Seq<u8>, raw: Result<bool, fjall::Error>) -> bool {
    exists|key_bytes: &[u8]| key_bytes@ == key && #[trigger] call_ensures(write_tx_contains_key, (&reader, &keyspace, key_bytes), raw)
}

pub(crate) proof fn lemma_write_tx_contains_key_gave(reader: &fjall::OptimisticWriteTx, keyspace: &fjall::Keyspace, key: &[u8], raw: Result<bool, fjall::Error>)
    requires
        call_ensures(write_tx_contains_key, (reader, keyspace, key), raw),
    ensures
        write_tx_contains_key_gave(*reader, *keyspace, key@, raw),
{
}

/// Whether `raw` is an answer that `OptimisticWriteTx::size_of` of the key bytes gave.
pub closed spec fn write_tx_size_of_gave(reader: fjall::OptimisticWriteTx, keyspace: fjall::Keyspace, key: Seq<u8>, raw: Result<Option<u32>, fjall::Error>) -> bool {
    exists|key_bytes: &[u8]| key_bytes@ == key && #[trigger] call_ensures(write_tx_size_of, (&reader, &keyspace, key_bytes), raw)
}

pub(crate) proof fn lemma_write_tx_size_of_gave(reader: &fjall::OptimisticWriteTx, keyspace: &fjall::Keyspace, key: &[u8], raw: Result<Option<u32>, fjall::Error>)
    requires
        call_ensures(write_tx_size_of, (reader, keyspace, key), raw),
    ensures
        write_tx_size_of_gave(*reader, *keyspace, key@, raw),
{
}

/// Whether `raw` is an answer that `OptimisticWriteTx::first_key_value` gave.
pub closed spec fn write_tx_first_key_value_gave(reader: fjall::OptimisticWriteTx, keyspace: fjall::Keyspace, raw: Option<fjall::Guard>) -> bool {
    call_ensures(write_tx_first_key_value, (&reader, &keyspace), raw)
}

pub(crate) proof fn lemma_write_tx_first_key_value_gave(reader: &fjall::OptimisticWriteTx, keyspace: &fjall::Keyspace, raw: Option<fjall::Guard>)
    requires
        call_ensures(write_tx_first_key_value, (reader, keyspace), raw),
    ensures
        write_tx_first_key_value_gave(*reader, *keyspace, raw),
{
}

/// Whether `raw` is an answer that `OptimisticWriteTx::last_key_value` gave.
pub closed spec fn write_tx_last_key_value_gave(reader: fjall::OptimisticWriteTx, keyspace: fjall::Keyspace, raw: Option<fjall::Guard>) -> bool {
    call_ensures(write_tx_last_key_value, (&reader, &keyspace), raw)
}

pub(crate) proof fn lemma_write_tx_last_key_value_gave(reader: &fjall::OptimisticWriteTx, keyspace: &fjall::Keyspace, raw: Option<fjall::Guard>)
    requires
        call_ensures(write_tx_last_key_value, (reader, keyspace), raw),
    ensures
        write_tx_last_key_value_gave(*reader, *keyspace, raw),
{
}

/// Whether `raw` is an answer that `OptimisticWriteTx::iter` gave.
pub closed spec fn write_tx_iter_gave(reader: fjall::OptimisticWriteTx, keyspace: fjall::Keyspace, raw: fjall::Iter) -> bool {
    call_ensures(write_tx_iter, (&reader, &keyspace), raw)
}

pub(crate) proof fn lemma_write_tx_iter_gave(reader: &fjall::OptimisticWriteTx, keyspace: &fjall::Keyspace, raw: fjall::Iter)
    requires
        call_ensures(write_tx_iter, (reader, keyspace), raw),
    ensures
        write_tx_iter_gave(*reader, *keyspace, raw),
{
}

/// Whether `raw` is an answer that `OptimisticWriteTx::is_empty` gave.
pub closed spec fn write_tx_is_empty_gave(reader: fjall::OptimisticWriteTx, keyspace: fjall::Keyspace, raw: Result<bool, fjall::Error>) -> bool {
    call_ensures(write_tx_is_empty, (&reader, &keyspace), raw)
}

pub(crate) proof fn lemma_write_tx_is_empty_gave(reader: &fjall::OptimisticWriteTx, keyspace: &fjall::Keyspace, raw: Result<bool, fjall::Error>)
    requires
        call_ensures(write_tx_is_empty, (reader, keyspace), raw),
    ensures
        write_tx_is_empty_gave(*reader, *keyspace, raw),
{
}

/// Whether `raw` is an answer that `OptimisticWriteTx::len` gave.
pub closed spec fn write_tx_len_gave(reader: fjall::OptimisticWriteTx, keyspace: fjall::Keyspace, raw: Result<usize, fjall::Error>) -> bool {
    call_ensures(write_tx_len, (&reader, &keyspace), raw)
}

pub(crate) proof fn lemma_write_tx_len_gave(reader: &fjall::OptimisticWriteTx, keyspace: &fjall::Keyspace, raw: Result<usize, fjall::Error>)
    requires
        call_ensures(write_tx_len, (reader, keyspace), raw),
    ensures
        write_tx_len_gave(*reader, *keyspace, raw),
{
}

/// Whether `raw` is an answer that `SingleWriterWriteTx::get` of the key bytes gave.
pub closed spec fn single_writer_tx_get_gave(reader: fjall::SingleWriterWriteTx, keyspace: fjall::Keyspace, key: Seq<u8>, raw: Result<Option<Vec<u8>>, fjall::Error>) -> bool {
    exists|key_bytes: &[u8]| key_bytes@ == key && #[trigger] call_ensures(single_writer_tx_get, (&reader, &keyspace, key_bytes), raw)
}

pub(crate) proof fn lemma_single_writer_tx_get_gave(reader: &fjall::SingleWriterWriteTx, keyspace: &fjall::Keyspace, key: &[u8], raw: Result<Option<Vec<u8>>, fjall::Error>)
    requires
        call_ensures(single_writer_tx_get, (reader, keyspace, key), raw),
    ensures
        single_writer_tx_get_gave(*reader, *keyspace, key@, raw),
{
}

/// Whether `raw` is an answer that `SingleWriterWriteTx::contains_key` of the key bytes gave.
pub closed spec fn single_writer_tx_contains_key_gave(reader: fjall::SingleWriterWriteTx, keyspace: fjall::Keyspace, key: Seq<u8>, raw: Result<bool, fjall::Error>) -> bool {
    exists|key_bytes: &[u8]| key_bytes@ == key && #[trigger] call_ensures(single_writer_tx_contains_key, (&reader, &keyspace, key_bytes), raw)
}

pub(crate) proof fn lemma_single_writer_tx_contains_key_gave(reader: &fjall::SingleWriterWriteTx, keyspace: &fjall::Keyspace, key: &[u8], raw: Result<bool, fjall::Error>)
    requires
        call_ensures(single_writer_tx_contains_key, (reader, keyspace, key), raw),
    ensures
        single_writer_tx_contains_key_gave(*reader, *keyspace, key@, raw),
{
}

/// Whether `raw` is an answer that `SingleWriterWriteTx::size_of` of the key bytes gave.
pub closed spec fn single_writer_tx_size_of_gave(reader: fjall::SingleWriterWriteTx, keyspace: fjall::Keyspace, key: Seq<u8>, raw: Result<Option<u32>, fjall::Error>) -> bool {
    exists|key_bytes: &[u8]| key_bytes@ == key && #[trigger] call_ensures(single_writer_tx_size_of, (&reader, &keyspace, key_bytes), raw)
}

pub(crate) proof fn lemma_single_writer_tx_size_of_gave(reader: &fjall::SingleWriterWriteTx, keyspace: &fjall::Keyspace, key: &[u8], raw: Result<Option<u32>, fjall::Error>)
    requires
        call_ensures(single_writer_tx_size_of, (reader, keyspace, key), raw),
    ensures
        single_writer_tx_size_of_gave(*reader, *keyspace, key@, raw),
{
}

/// Whether `raw` is an answer that `SingleWriterWriteTx::first_key_value` gave.
pub closed spec fn single_writer_tx_first_key_value_gave(reader: fjall::SingleWriterWriteTx, keyspace: fjall::Keyspace, raw: Option<fjall::Guard>) -> bool {
    call_ensures(single_writer_tx_first_key_value, (&reader, &keyspace), raw)
}

pub(crate) proof fn lemma_single_writer_tx_first_key_value_gave(reader: &fjall::SingleWriterWriteTx, keyspace: &fjall::Keyspace, raw: Option<fjall::Guard>)
    requires
        call_ensures(single_writer_tx_first_key_value, (reader, keyspace), raw),
    ensures
        single_writer_tx_first_key_value_gave(*reader, *keyspace, raw),
{
}

/// Whether `raw` is an answer that `SingleWriterWriteTx::last_key_value` gave.
pub closed spec fn single_writer_tx_last_key_value_gave(reader: fjall::SingleWriterWriteTx, keyspace: fjall::Keyspace, raw: Option<fjall::Guard>) -> bool {
    call_ensures(single_writer_tx_last_key_value, (&reader, &keyspace), raw)
}

pub(crate) proof fn lemma_single_writer_tx_last_key_value_gave(reader: &fjall::SingleWriterWriteTx, keyspace: &fjall::Keyspace, raw: Option<fjall::Guard>)
    requires
        call_ensures(single_writer_tx_last_key_value, (reader, keyspace), raw),
    ensures
        single_writer_tx_last_key_value_gave(*reader, *keyspace, raw),
{
}

/// Whether `raw` is an answer that `SingleWriterWriteTx::iter` gave.
pub closed spec fn single_writer_tx_iter_gave(reader: fjall::SingleWriterWriteTx, keyspace: fjall::Keyspace, raw: fjall::Iter) -> bool {
    call_ensures(single_writer_tx_iter, (&reader, &keyspace), raw)
}

pub(crate) proof fn lemma_single_writer_tx_iter_gave(reader: &fjall::SingleWriterWriteTx, keyspace: &fjall::Keyspace, raw: fjall::Iter)
    requires
        call_ensures(single_writer_tx_iter, (reader, keyspace), raw),
    ensures
        single_writer_tx_iter_gave(*reader, *keyspace, raw),
{
}

/// Whether `raw` is an answer that `SingleWriterWriteTx::is_empty` gave.
pub closed spec fn single_writer_tx_is_empty_gave(reader: fjall::SingleWriterWriteTx, keyspace: fjall::Keyspace, raw: Result<bool, fjall::Error>) -> bool {
    call_ensures(single_writer_tx_is_empty, (&reader, &keyspace), raw)
}

pub(crate) proof fn lemma_single_writer_tx_is_empty_gave(reader: &fjall::SingleWriterWriteTx, keyspace: &fjall::Keyspace, raw: Result<bool, fjall::Error>)
    requires
        call_ensures(single_writer_tx_is_empty, (reader, keyspace), raw),
    ensures
        single_writer_tx_is_empty_gave(*reader, *keyspace, raw),
{
}

/// Whether `raw` is an answer that `SingleWriterWriteTx::len` gave.
pub closed spec fn single_writer_tx_len_gave(reader: fjall::SingleWriterWriteTx, keyspace: fjall::Keyspace, raw: Result<usize, fjall::Error>) -> bool {
    call_ensures(single_writer_tx_len, (&reader, &keyspace), raw)
}

pub(crate) proof fn lemma_single_writer_tx_len_gave(reader: &fjall::SingleWriterWriteTx, keyspace: &fjall::Keyspace, raw: Result<usize, fjall::Error>)
    requires
        call_ensures(single_writer_tx_len, (reader, keyspace), raw),
    ensures
        single_writer_tx_len_gave(*reader, *keyspace, raw),
{
}

} // verus!
