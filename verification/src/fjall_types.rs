//! The types of fjall that the library holds and hands on.
use crate::bounds::KeyBound;
use vstd::prelude::*;

verus! {

#[verifier::external_type_specification]
#[verifier::external_body]
pub struct ExFjallError(fjall::Error);

#[verifier::external_type_specification]
#[verifier::external_body]
pub struct ExFjallKeyspace(fjall::Keyspace);

#[verifier::external_type_specification]
#[verifier::external_body]
pub struct ExFjallGuard(fjall::Guard);

#[verifier::external_type_specification]
#[verifier::external_body]
pub struct ExFjallIter(fjall::Iter);

#[verifier::external_type_specification]
#[verifier::external_body]
pub struct ExFjallOptimisticTxKeyspace(fjall::OptimisticTxKeyspace);

#[verifier::external_type_specification]
#[verifier::external_body]
pub struct ExFjallOptimisticWriteTx(fjall::OptimisticWriteTx);

#[verifier::external_type_specification]
#[verifier::external_body]
pub struct ExFjallSnapshot(fjall::Snapshot);

#[verifier::external_type_specification]
#[verifier::external_body]
pub struct ExFjallSingleWriterWriteTx<'a>(fjall::SingleWriterWriteTx<'a>);

#[verifier::external_type_specification]
#[verifier::external_body]
pub struct ExFjallPersistMode(fjall::PersistMode);

#[verifier::external_type_specification]
#[verifier::external_body]
pub struct ExFjallConflict(fjall::Conflict);

/// The writes that a transaction holds of its own for a keyspace, by key: `Some` of the value
/// inserted, or `None` where the key was removed.
pub uninterp spec fn tx_writes(tx: fjall::OptimisticWriteTx, keyspace: fjall::Keyspace) -> Map<
    Seq<u8>,
    Option<Seq<u8>>,
>;

/// The writes that a single-writer transaction holds of its own for a keyspace, by key: `Some`
/// of the value inserted, or `None` where the key was removed.
pub uninterp spec fn single_writer_writes(tx: fjall::SingleWriterWriteTx, keyspace: fjall::Keyspace) -> Map<
    Seq<u8>,
    Option<Seq<u8>>,
>;

/// The durability that a transaction commits with.
pub uninterp spec fn tx_durability(tx: fjall::OptimisticWriteTx) -> Option<fjall::PersistMode>;

/// The plain keyspace under a transactional keyspace.
pub uninterp spec fn tx_inner_keyspace(keyspace: fjall::OptimisticTxKeyspace) -> fjall::Keyspace;

/// The two bounds of key bytes that an iterator over a range was made with.
pub uninterp spec fn iter_bounds(iter: fjall::Iter) -> (KeyBound<Seq<u8>>, KeyBound<Seq<u8>>);

/// The prefix of key bytes that an iterator over a prefix was made with.
pub uninterp spec fn iter_prefix(iter: fjall::Iter) -> Seq<u8>;

} // verus!
