use fjall_typed::codec::{Decode, Encode, RoaringBitmapCodec, RoaringTreemapCodec};
use roaring::{RoaringBitmap, RoaringTreemap};

#[test]
fn encode_and_decode_bitmap() {
    let bitmap = RoaringBitmap::from_iter(&[1, 2, 3, 5, 2058, 2064, 2080, 2090]);
    let mut roaring_bytes = Vec::new();
    bitmap.serialize_into(&mut roaring_bytes).unwrap();
    let roaring_deserialized =
        RoaringBitmap::deserialize_from(&mut roaring_bytes.as_slice()).unwrap();

    let codec_bytes = RoaringBitmapCodec::encode(&bitmap).unwrap();
    assert_eq!(codec_bytes, roaring_bytes);

    let codec_deserialized = RoaringBitmapCodec::decode(codec_bytes).unwrap();

    assert_eq!(codec_deserialized, roaring_deserialized);
    assert_eq!(codec_deserialized, bitmap);
}

#[test]
fn encode_and_decode_treemap() {
    let bitmap = RoaringTreemap::from_iter(&[1, 2, 3, 5, 2058, 2064, 2080, 2090]);
    let mut roaring_bytes = Vec::new();
    bitmap.serialize_into(&mut roaring_bytes).unwrap();
    let roaring_deserialized =
        RoaringTreemap::deserialize_from(&mut roaring_bytes.as_slice()).unwrap();

    let codec_bytes = RoaringTreemapCodec::encode(&bitmap).unwrap();
    assert_eq!(codec_bytes, roaring_bytes);

    let codec_deserialized = RoaringTreemapCodec::decode(codec_bytes).unwrap();

    assert_eq!(codec_deserialized, roaring_deserialized);
    assert_eq!(codec_deserialized, bitmap);
}

#[test]
fn empty_bitmap_roundtrip() {
    let bitmap = RoaringBitmap::new();
    let bytes = RoaringBitmapCodec::encode(&bitmap).unwrap();
    assert_eq!(RoaringBitmapCodec::decode(bytes).unwrap(), bitmap);
}

#[test]
fn bitmap_decode_rejects_garbage() {
    assert!(RoaringBitmapCodec::decode(vec![1, 2, 3]).is_err());
    assert!(RoaringBitmapCodec::decode(Vec::new()).is_err());
}

#[test]
fn treemap_decode_rejects_garbage() {
    assert!(RoaringTreemapCodec::decode(vec![0xff]).is_err());
}
