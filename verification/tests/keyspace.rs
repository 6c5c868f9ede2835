use byteorder::BigEndian;
use fjall_typed::codec::{Bytes, Str, Unit, I8, U32, U8};
use fjall_typed::{
    encode_range, fjall_outcome, lookup_outcome, KeyBound, TypedError, TypedKeyspace,
    TypedOptimisticTxKeyspace, TypedOptimisticWriteTx, TypedReadable,
};

fn open(name: &str) -> fjall::Database {
    fjall::Database::builder(format!("/tmp/fjall-typed-test-{name}"))
        .temporary(true)
        .open()
        .unwrap()
}

#[test]
fn insert_then_get() {
    let db = open("insert_then_get");
    let ks = db
        .keyspace("items", fjall::KeyspaceCreateOptions::default)
        .unwrap();
    let ks = TypedKeyspace::<U8, Str>::new(ks);
    ks.insert(&33, "hello").unwrap();
    assert_eq!(ks.get(&33).unwrap(), Some("hello".to_string()));
    assert_eq!(ks.get(&34).unwrap(), None);
    assert!(ks.contains_key(&33).unwrap());
    assert!(!ks.contains_key(&34).unwrap());
    assert_eq!(ks.size_of(&33).unwrap(), Some(5));
}

#[test]
fn remapped_keyspace_reads_same_bytes() {
    let db = open("remapped");
    let ks = db
        .keyspace("items", fjall::KeyspaceCreateOptions::default)
        .unwrap();
    let ks = TypedKeyspace::<U8, Str>::new(ks);
    ks.insert(&254, "hi").unwrap();
    // the key 254 is the byte 0xfe, which is -2 as an i8
    let by_i8 = ks.remap_key::<I8>();
    assert_eq!(by_i8.get(&-2).unwrap(), Some("hi".to_string()));
    // a unit value holds no bytes, so "hi" is not a unit
    let as_unit = ks.remap_value::<Unit>();
    assert!(matches!(as_unit.get(&254), Err(TypedError::Value(_))));
    ks.insert(&1, "").unwrap();
    assert_eq!(as_unit.get(&1).unwrap(), Some(()));
    let both = ks.remap_key_value::<I8, Unit>();
    assert_eq!(both.get(&1).unwrap(), Some(()));
    let owned = both.to_owned();
    assert_eq!(owned.get(&1).unwrap(), Some(()));
}

#[test]
fn iterate_and_range() {
    let db = open("iterate");
    let ks = db
        .keyspace("numbers", fjall::KeyspaceCreateOptions::default)
        .unwrap();
    let ks = TypedKeyspace::<U32<BigEndian>, Str>::new(ks);
    for (k, v) in [(1u32, "one"), (2, "two"), (300, "three hundred"), (4000, "four thousand")] {
        ks.insert(&k, v).unwrap();
    }
    let first = ks.first_key_value().unwrap().into_inner().unwrap();
    assert_eq!(first, (1, "one".to_string()));
    let last = ks.last_key_value().unwrap().key().unwrap();
    assert_eq!(last, 4000);

    let mut all = Vec::new();
    let mut iter = ks.iter();
    while let Some(guard) = iter.next() {
        all.push(guard.key().unwrap());
    }
    assert_eq!(all, vec![1, 2, 300, 4000]);

    let mut back = ks.iter();
    assert_eq!(back.next_back().unwrap().value().unwrap(), "four thousand");

    let mut inside = Vec::new();
    let mut range = ks
        .range(KeyBound::Included(&2), KeyBound::Excluded(&4000))
        .unwrap();
    while let Some(guard) = range.next() {
        inside.push(guard.key().unwrap());
    }
    assert_eq!(inside, vec![2, 300]);

    let mut upto = Vec::new();
    let mut range = ks.range(KeyBound::Unbounded, KeyBound::Included(&300)).unwrap();
    while let Some(guard) = range.next() {
        upto.push(guard.key().unwrap());
    }
    assert_eq!(upto, vec![1, 2, 300]);
}

#[test]
fn prefix_iteration() {
    let db = open("prefix");
    let ks = db
        .keyspace("words", fjall::KeyspaceCreateOptions::default)
        .unwrap();
    let ks = TypedKeyspace::<Str, Unit>::new(ks);
    for w in ["a", "ab", "abc", "b"] {
        ks.insert(w, &()).unwrap();
    }
    let mut found = Vec::new();
    let mut iter = ks.prefix("ab").unwrap();
    while let Some(guard) = iter.next() {
        found.push(guard.key().unwrap());
    }
    assert_eq!(found, vec!["ab".to_string(), "abc".to_string()]);
}

#[test]
fn snapshot_reads() {
    let db = open("snapshot");
    let ks = db
        .keyspace("items", fjall::KeyspaceCreateOptions::default)
        .unwrap();
    let ks = TypedKeyspace::<U8, Str>::new(ks);
    ks.insert(&1, "one").unwrap();
    let snapshot = db.snapshot();
    ks.insert(&2, "two").unwrap();
    assert_eq!(snapshot.get(&ks, &1).unwrap(), Some("one".to_string()));
    assert_eq!(snapshot.get(&ks, &2).unwrap(), None);
    assert!(snapshot.contains_key(&ks, &1).unwrap());
    assert_eq!(snapshot.len(&ks).unwrap(), 1);
    assert!(!snapshot.is_empty(&ks).unwrap());
    assert_eq!(snapshot.size_of(&ks, &1).unwrap(), Some(3));
    assert_eq!(
        snapshot.first_key_value(&ks).unwrap().key().unwrap(),
        1
    );
}

#[test]
fn transactional_keyspace() {
    let db = fjall::OptimisticTxDatabase::builder("/tmp/fjall-typed-test-tx")
        .temporary(true)
        .open()
        .unwrap();
    let ks = db
        .keyspace("items", fjall::KeyspaceCreateOptions::default)
        .unwrap();
    let ks = TypedOptimisticTxKeyspace::<U8, Str>::new(ks);
    ks.insert(&7, "seven").unwrap();
    assert_eq!(ks.get(&7).unwrap(), Some("seven".to_string()));
    assert_eq!(ks.as_keyspace().get(&7).unwrap(), Some("seven".to_string()));
    assert_eq!(ks.take(&7).unwrap(), Some("seven".to_string()));
    assert_eq!(ks.get(&7).unwrap(), None);
    ks.insert(&8, "eight").unwrap();
    ks.remove(&8).unwrap();
    assert!(!ks.contains_key(&8).unwrap());

    let mut tx = TypedOptimisticWriteTx::new(db.write_tx().unwrap());
    let plain = ks.as_keyspace();
    tx.insert(&plain, &9, "nine").unwrap();
    assert_eq!(tx.get(&plain, &9).unwrap(), Some("nine".to_string()));
    assert_eq!(tx.take(&plain, &9).unwrap(), Some("nine".to_string()));
    tx.insert(&plain, &10, "ten").unwrap();
    tx.remove(&plain, &10).unwrap();
    tx.insert(&plain, &11, "eleven").unwrap();
    tx.commit().unwrap().unwrap();
    assert_eq!(ks.get(&11).unwrap(), Some("eleven".to_string()));
    assert_eq!(ks.get(&10).unwrap(), None);
}

#[test]
fn range_bounds_keep_their_kind() {
    let (start, end) =
        encode_range::<U8>(KeyBound::Included(&1), KeyBound::Excluded(&9)).unwrap();
    assert!(matches!(start, KeyBound::Included(ref b) if b == &vec![1]));
    assert!(matches!(end, KeyBound::Excluded(ref b) if b == &vec![9]));
    let (start, end) = encode_range::<U8>(KeyBound::Unbounded, KeyBound::Unbounded).unwrap();
    assert!(matches!(start, KeyBound::Unbounded));
    assert!(matches!(end, KeyBound::Unbounded));
}

#[test]
fn outcomes_of_fjall_answers() {
    let found = lookup_outcome::<(), Str>(Ok(Some(b"abc".to_vec())));
    assert_eq!(found.unwrap(), Some("abc".to_string()));
    let missing = lookup_outcome::<(), Str>(Ok(None));
    assert_eq!(missing.unwrap(), None);
    let bad = lookup_outcome::<(), Str>(Ok(Some(vec![0xff])));
    assert!(matches!(bad, Err(TypedError::Value(_))));
    let failed = lookup_outcome::<(), Str>(Err(fjall::Error::Poisoned));
    assert!(matches!(failed, Err(TypedError::Fjall(fjall::Error::Poisoned))));
    let passed: Result<u8, TypedError<(), ()>> = fjall_outcome(Ok(3));
    assert_eq!(passed.unwrap(), 3);
}

#[test]
fn unwrap_fjall_gives_the_fjall_error() {
    let e: TypedError<(), ()> = TypedError::Fjall(fjall::Error::Locked);
    assert!(matches!(e.unwrap_fjall(), fjall::Error::Locked));
}

fn keys_of(mut iter: fjall_typed::TypedIter<U8, Unit>) -> Vec<u8> {
    let mut keys = Vec::new();
    while let Some(guard) = iter.next() {
        keys.push(guard.key().unwrap());
    }
    keys
}

#[test]
fn range_with_inclusive_end() {
    let db = open("inclusive_end");
    let ks = db
        .keyspace("k", fjall::KeyspaceCreateOptions::default)
        .unwrap();
    let ks = TypedKeyspace::<U8, Unit>::new(ks);
    for k in [1u8, 2, 3, 4] {
        ks.insert(&k, &()).unwrap();
    }
    let inclusive = ks.range(KeyBound::Included(&2), KeyBound::Included(&3)).unwrap();
    assert_eq!(keys_of(inclusive), vec![2, 3]);
    let exclusive = ks.range(KeyBound::Excluded(&2), KeyBound::Excluded(&4)).unwrap();
    assert_eq!(keys_of(exclusive), vec![3]);
    let open_start = ks.range(KeyBound::Unbounded, KeyBound::Excluded(&3)).unwrap();
    assert_eq!(keys_of(open_start), vec![1, 2]);
}

#[test]
fn reader_range_and_prefix() {
    let db = open("reader_range");
    let ks = db
        .keyspace("k", fjall::KeyspaceCreateOptions::default)
        .unwrap();
    let ks = TypedKeyspace::<U8, Unit>::new(ks);
    for k in [1u8, 2, 3] {
        ks.insert(&k, &()).unwrap();
    }
    let snapshot = db.snapshot();
    ks.insert(&4, &()).unwrap();
    let range = snapshot.range(&ks, KeyBound::Included(&1), KeyBound::Excluded(&3)).unwrap();
    assert_eq!(keys_of(range), vec![1, 2]);
    let upto = snapshot.range(&ks, KeyBound::Included(&2), KeyBound::Included(&9)).unwrap();
    assert_eq!(keys_of(upto), vec![2, 3]);
    let prefix = snapshot.prefix(&ks, &3).unwrap();
    assert_eq!(keys_of(prefix), vec![3]);
    let all = snapshot.iter(&ks);
    assert_eq!(keys_of(all), vec![1, 2, 3]);
}

#[test]
fn transaction_reads_its_own_writes() {
    let db = fjall::OptimisticTxDatabase::builder("/tmp/fjall-typed-test-own-writes")
        .temporary(true)
        .open()
        .unwrap();
    let ks = db
        .keyspace("items", fjall::KeyspaceCreateOptions::default)
        .unwrap();
    let ks = TypedOptimisticTxKeyspace::<U8, Str>::new(ks);
    ks.insert(&1, "one").unwrap();
    let plain = ks.as_keyspace();
    let mut tx = TypedOptimisticWriteTx::new(db.write_tx().unwrap());

    tx.insert(&plain, &2, "two").unwrap();
    assert!(tx.contains_key(&plain, &2).unwrap());
    assert_eq!(tx.size_of(&plain, &2).unwrap(), Some(3));
    assert_eq!(tx.get(&plain, &2).unwrap(), Some("two".to_string()));

    tx.remove(&plain, &1).unwrap();
    assert_eq!(tx.get(&plain, &1).unwrap(), None);
    assert!(!tx.contains_key(&plain, &1).unwrap());
    assert_eq!(tx.size_of(&plain, &1).unwrap(), None);
    // outside the transaction nothing changed yet
    assert_eq!(ks.get(&1).unwrap(), Some("one".to_string()));
    assert_eq!(ks.get(&2).unwrap(), None);

    // a value that is no string is taken all the same, with the value codec's error
    let raw = plain.remap_value::<Bytes>();
    tx.insert(&raw, &3, &[0xff][..]).unwrap();
    assert!(matches!(tx.take(&plain, &3), Err(TypedError::Value(_))));
    assert_eq!(tx.get(&plain, &3).unwrap(), None);
    // a key that is not there is taken as nothing
    assert_eq!(tx.take(&plain, &4).unwrap(), None);

    let tx = tx.durability(Some(fjall::PersistMode::SyncAll));
    tx.commit().unwrap().unwrap();
    assert_eq!(ks.get(&1).unwrap(), None);
    assert_eq!(ks.get(&2).unwrap(), Some("two".to_string()));
    assert!(!ks.contains_key(&3).unwrap());
}

#[test]
fn other_transactions_read_their_own_writes() {
    let db = fjall::SingleWriterTxDatabase::builder("/tmp/fjall-typed-test-single-writer")
        .temporary(true)
        .open()
        .unwrap();
    let ks = db
        .keyspace("items", fjall::KeyspaceCreateOptions::default)
        .unwrap();
    let typed = TypedKeyspace::<U8, Str>::new(ks.inner().clone());
    let mut tx = db.write_tx();
    tx.insert(&ks, vec![5u8], "five");
    assert_eq!(TypedReadable::get(&tx, &typed, &5).unwrap(), Some("five".to_string()));
    assert!(TypedReadable::contains_key(&tx, &typed, &5).unwrap());
    tx.remove(&ks, vec![5u8]);
    assert_eq!(TypedReadable::get(&tx, &typed, &5).unwrap(), None);
    tx.commit().unwrap();

    let db = fjall::OptimisticTxDatabase::builder("/tmp/fjall-typed-test-plain-optimistic")
        .temporary(true)
        .open()
        .unwrap();
    let ks = db
        .keyspace("items", fjall::KeyspaceCreateOptions::default)
        .unwrap();
    let typed = TypedKeyspace::<U8, Str>::new(ks.inner().clone());
    let mut tx = db.write_tx().unwrap();
    tx.insert(&ks, vec![6u8], "six");
    assert_eq!(TypedReadable::get(&tx, &typed, &6).unwrap(), Some("six".to_string()));
    assert_eq!(TypedReadable::size_of(&tx, &typed, &6).unwrap(), Some(3));
}
