//! Codecs of roaring bitmaps, stored in the standard roaring on-disk format
//! (<https://github.com/RoaringBitmap/RoaringFormatSpec>).
use crate::codec::{Decode, Encode};
use core::convert::Infallible;
use vstd::prelude::*;

verus! {

#[verifier::external_type_specification]
#[verifier::external_body]
pub struct ExRoaringBitmap(roaring::RoaringBitmap);

#[verifier::external_type_specification]
#[verifier::external_body]
pub struct ExRoaringTreemap(roaring::RoaringTreemap);

/// The values that a `roaring::RoaringBitmap` holds.
pub uninterp spec fn bitmap_contents(bitmap: roaring::RoaringBitmap) -> Set<u32>;

/// The bytes that `roaring::RoaringBitmap::serialize_into` writes for a bitmap.
pub uninterp spec fn bitmap_bytes(bitmap: roaring::RoaringBitmap) -> Seq<u8>;

/// The values of the bitmap that `roaring::RoaringBitmap::deserialize_from` reads from the bytes, or
/// `None` when it fails.
pub uninterp spec fn bitmap_parse(bytes: Seq<u8>) -> Option<Set<u32>>;

/// The values that a `roaring::RoaringTreemap` holds.
pub uninterp spec fn treemap_contents(treemap: roaring::RoaringTreemap) -> Set<u64>;

/// The bytes that `roaring::RoaringTreemap::serialize_into` writes for a treemap.
pub uninterp spec fn treemap_bytes(treemap: roaring::RoaringTreemap) -> Seq<u8>;

/// The values of the treemap that `roaring::RoaringTreemap::deserialize_from` reads from the bytes, or
/// `None` when it fails.
pub uninterp spec fn treemap_parse(bytes: Seq<u8>) -> Option<Set<u64>>;

/// `roaring::RoaringBitmap::serialize_into` a new vector. It fails only when its writer fails, and
/// writing into a vector does not fail. Its documentation shows that
/// `roaring::RoaringBitmap::deserialize_from` reads the same values back from the bytes.
#[verifier::external_body]
fn serialize_bitmap(bitmap: &roaring::RoaringBitmap) -> (r: Result<Vec<u8>, std::io::Error>)
    ensures
        r is Ok,
        r matches Ok(bytes) ==> bytes@ == bitmap_bytes(*bitmap),
        r matches Ok(bytes) ==> bitmap_parse(bytes@) == Some(bitmap_contents(*bitmap)),
{
    let mut bytes = Vec::new();
    match bitmap.serialize_into(&mut bytes) {
        Ok(()) => Ok(bytes),
        Err(e) => Err(e),
    }
}

/// `roaring::RoaringBitmap::deserialize_from` the bytes.
#[verifier::external_body]
fn deserialize_bitmap(bytes: &[u8]) -> (r: Result<roaring::RoaringBitmap, std::io::Error>)
    ensures
        r is Ok <==> bitmap_parse(bytes@) is Some,
        r matches Ok(bitmap) ==> bitmap_parse(bytes@) == Some(bitmap_contents(bitmap)),
{
    roaring::RoaringBitmap::deserialize_from(bytes)
}

/// `roaring::RoaringTreemap::serialize_into` a new vector. It fails only when its writer fails, and
/// writing into a vector does not fail. Its documentation shows that
/// `roaring::RoaringTreemap::deserialize_from` reads the same values back from the bytes.
#[verifier::external_body]
fn serialize_treemap(treemap: &roaring::RoaringTreemap) -> (r: Result<Vec<u8>, std::io::Error>)
    ensures
        r is Ok,
        r matches Ok(bytes) ==> bytes@ == treemap_bytes(*treemap),
        r matches Ok(bytes) ==> treemap_parse(bytes@) == Some(treemap_contents(*treemap)),
{
    let mut bytes = Vec::new();
    match treemap.serialize_into(&mut bytes) {
        Ok(()) => Ok(bytes),
        Err(e) => Err(e),
    }
}

/// `roaring::RoaringTreemap::deserialize_from` the bytes.
#[verifier::external_body]
fn deserialize_treemap(bytes: &[u8]) -> (r: Result<roaring::RoaringTreemap, std::io::Error>)
    ensures
        r is Ok <==> treemap_parse(bytes@) is Some,
        r matches Ok(treemap) ==> treemap_parse(bytes@) == Some(treemap_contents(treemap)),
{
    roaring::RoaringTreemap::deserialize_from(bytes)
}

/// A roaring bitmap of `u32`, in the standard roaring on-disk format.
pub enum RoaringBitmapCodec {
    /// No value of this codec exists: it is only a type.
    Uninhabited(Infallible),
}

impl Encode for RoaringBitmapCodec {
    type Item = roaring::RoaringBitmap;
    type Error = std::io::Error;

    open spec fn spec_encode(item: &roaring::RoaringBitmap) -> Option<Seq<u8>> {
        Some(bitmap_bytes(*item))
    }

    /// Encoding does not fail, and decoding the bytes gives back a bitmap with the same values.
    fn encode(item: &roaring::RoaringBitmap) -> (r: Result<Vec<u8>, std::io::Error>)
        ensures
            r matches Ok(bytes) && Self::decodable(bytes@) && forall|other: roaring::RoaringBitmap|
                Self::decodes_to(bytes@, other) <==> bitmap_contents(other) == bitmap_contents(*item),
    {
        serialize_bitmap(item)
    }
}

impl Decode for RoaringBitmapCodec {
    type Item = roaring::RoaringBitmap;
    type Error = std::io::Error;

    open spec fn decodable(bytes: Seq<u8>) -> bool {
        bitmap_parse(bytes) is Some
    }

    open spec fn decodes_to(bytes: Seq<u8>, item: roaring::RoaringBitmap) -> bool {
        bitmap_parse(bytes) == Some(bitmap_contents(item))
    }

    fn decode(bytes: Vec<u8>) -> (r: Result<roaring::RoaringBitmap, std::io::Error>) {
        deserialize_bitmap(bytes.as_slice())
    }
}

/// A roaring treemap of `u64`, in the standard roaring on-disk format.
pub enum RoaringTreemapCodec {
    /// No value of this codec exists: it is only a type.
    Uninhabited(Infallible),
}

impl Encode for RoaringTreemapCodec {
    type Item = roaring::RoaringTreemap;
    type Error = std::io::Error;

    open spec fn spec_encode(item: &roaring::RoaringTreemap) -> Option<Seq<u8>> {
        Some(treemap_bytes(*item))
    }

    /// Encoding does not fail, and decoding the bytes gives back a treemap with the same values.
    fn encode(item: &roaring::RoaringTreemap) -> (r: Result<Vec<u8>, std::io::Error>)
        ensures
            r matches Ok(bytes) && Self::decodable(bytes@) && forall|other: roaring::RoaringTreemap|
                Self::decodes_to(bytes@, other) <==> treemap_contents(other) == treemap_contents(*item),
    {
        serialize_treemap(item)
    }
}

impl Decode for RoaringTreemapCodec {
    type Item = roaring::RoaringTreemap;
    type Error = std::io::Error;

    open spec fn decodable(bytes: Seq<u8>) -> bool {
        treemap_parse(bytes) is Some
    }

    open spec fn decodes_to(bytes: Seq<u8>, item: roaring::RoaringTreemap) -> bool {
        treemap_parse(bytes) == Some(treemap_contents(item))
    }

    fn decode(bytes: Vec<u8>) -> (r: Result<roaring::RoaringTreemap, std::io::Error>) {
        deserialize_treemap(bytes.as_slice())
    }
}

} // verus!
