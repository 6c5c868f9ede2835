//! The codec system: how items are turned into bytes and back.
mod byte_order;
mod bytes;
mod str;
mod integer;
mod bitmap;
mod unit;

pub use byte_order::{is_unexpected_eof, be_bytes, be_value, arrange, twos, from_twos, pow256, Endianness};
pub use integer::{I128, I16, I32, I64, I8, U128, U16, U32, U64, U8};
pub use integer::{lemma_i128_canonical, lemma_i128_roundtrip, lemma_i16_canonical, lemma_i16_roundtrip, lemma_i32_canonical, lemma_i32_roundtrip, lemma_i64_canonical, lemma_i64_roundtrip, lemma_i8_canonical, lemma_i8_roundtrip};
pub use integer::{lemma_u128_canonical, lemma_u128_roundtrip, lemma_u16_canonical, lemma_u16_roundtrip, lemma_u32_canonical, lemma_u32_roundtrip, lemma_u64_canonical, lemma_u64_roundtrip, lemma_u8_canonical, lemma_u8_roundtrip};
pub use bytes::{lemma_bytes_roundtrip, Bytes};
pub use str::{lemma_str_roundtrip, Str};
pub use bitmap::{bitmap_bytes, bitmap_contents, bitmap_parse, treemap_bytes, treemap_contents, treemap_parse};
pub use bitmap::{RoaringBitmapCodec, RoaringTreemapCodec};
pub use unit::{lemma_unit_roundtrip, NonEmptyError, Unit};

use vstd::prelude::*;

verus! {

/// Dummy codec for when it is not known yet which codec will be used.
pub enum Unspecified {
    /// No value of this codec exists: it is only a type.
    Uninhabited(core::convert::Infallible),
}

/// How an item is encoded into the bytes that are stored in fjall.
pub trait Encode {
    /// The type to encode.
    type Item: ?Sized;
    /// The error returned when the item cannot be encoded.
    type Error;

    /// The bytes that `item` encodes to, or `None` when it cannot be encoded.
    spec fn spec_encode(item: &Self::Item) -> Option<Seq<u8>>;

    /// Encode the given item as bytes.
    fn encode(item: &Self::Item) -> (r: Result<Vec<u8>, Self::Error>)
        ensures
            r is Ok <==> Self::spec_encode(item) is Some,
            r matches Ok(bytes) ==> Self::spec_encode(item) == Some(bytes@),
    ;
}

/// How an item is decoded from the bytes stored in fjall.
pub trait Decode {
    /// The type to decode.
    type Item;
    /// The error returned when the bytes do not hold an item.
    type Error;

    /// Whether the bytes hold an item.
    spec fn decodable(bytes: Seq<u8>) -> bool;

    /// Whether `item` is the item that the bytes hold.
    spec fn decodes_to(bytes: Seq<u8>, item: Self::Item) -> bool;

    /// Decode the given bytes as an item.
    fn decode(bytes: Vec<u8>) -> (r: Result<Self::Item, Self::Error>)
        ensures
            r is Ok <==> Self::decodable(bytes@),
            r matches Ok(item) ==> Self::decodes_to(bytes@, item),
    ;
}

/// A codec that ignores the bytes and decodes every one of them to `()`.
pub enum DecodeIgnore {
    /// No value of this codec exists: it is only a type.
    Uninhabited(core::convert::Infallible),
}

impl Decode for DecodeIgnore {
    type Item = ();
    type Error = core::convert::Infallible;

    open spec fn decodable(bytes: Seq<u8>) -> bool {
        true
    }

    open spec fn decodes_to(bytes: Seq<u8>, item: ()) -> bool {
        true
    }

    fn decode(bytes: Vec<u8>) -> (r: Result<(), core::convert::Infallible>) {
        Ok(())
    }
}

} // verus!
