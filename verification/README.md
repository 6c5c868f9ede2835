# fjall_typed

Typed keyspaces for the [fjall](https://github.com/fjall-rs/fjall) key-value store,
written in Verus.

A `TypedKeyspace<Key, Value>` wraps a `fjall::Keyspace` with a codec for its keys and
one for its values. A codec implements `codec::Encode` (item to bytes) and
`codec::Decode` (bytes to item); each states in its contract exactly which bytes an
item encodes to and which items bytes decode to.

Layout:

- `src/codec/`: the `Encode` and `Decode` traits and the codecs `Bytes`, `Str`,
  `Unit`, `DecodeIgnore`, `U8`, `I8`, `U16`..`U128` and `I16`..`I128` (in the byte
  order `byteorder::BigEndian` or `byteorder::LittleEndian`), and
  `RoaringBitmapCodec` / `RoaringTreemapCodec`. Next to each codec stand the proofs
  that decoding an encoding gives the item back.
- `src/keyspace.rs`, `src/optimistic_tx_keyspace.rs`, `src/optimistic_write_tx.rs`,
  `src/readable.rs`, `src/lib.rs`: the typed keyspaces, transactions, readers,
  entries and iterators. Their contracts say when a key or value codec fails and what
  is made of fjall's answers (`src/outcome.rs`, `src/bounds.rs`); which bounds and
  prefixes reach fjall; and, for a write transaction, how each call changes
  the writes it holds and that its reads give those writes back.
- `src/limits.rs`: the lengths of keys and values that fjall accepts, which the
  keyed operations require.
- `src/raw.rs` and the `external_body` functions of `src/codec/`: the calls into
  fjall, byteorder, roaring and std, with the contracts that are taken on trust.
- `app/`: an example program, and codecs built on serde, facet and rkyv, which lay an
  item out by whatever the item's implementation of those traits does.
