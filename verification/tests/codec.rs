use byteorder::{BigEndian, LittleEndian};
use fjall_typed::codec::{
    Bytes, Decode, DecodeIgnore, Encode, NonEmptyError, Str, Unit, I128, I16, I32, I64, I8, U128,
    U16, U32, U64, U8,
};

#[test]
fn u8_codec() {
    assert_eq!(U8::encode(&12).unwrap(), vec![12]);
    assert_eq!(U8::decode(vec![12]).unwrap(), 12);
    assert_eq!(U8::decode(vec![200, 7]).unwrap(), 200);
    assert!(U8::decode(Vec::new()).is_err());
}

#[test]
fn i8_codec() {
    assert_eq!(I8::encode(&-4).unwrap(), vec![0xfc]);
    assert_eq!(I8::encode(&5).unwrap(), vec![5]);
    assert_eq!(I8::decode(vec![0xfc]).unwrap(), -4);
    assert_eq!(I8::decode(vec![0x80]).unwrap(), i8::MIN);
    assert!(I8::decode(Vec::new()).is_err());
}

#[test]
fn u16_byte_orders() {
    assert_eq!(U16::<BigEndian>::encode(&0x0102).unwrap(), vec![1, 2]);
    assert_eq!(U16::<LittleEndian>::encode(&0x0102).unwrap(), vec![2, 1]);
    assert_eq!(U16::<BigEndian>::decode(vec![1, 2]).unwrap(), 0x0102);
    assert_eq!(U16::<LittleEndian>::decode(vec![1, 2]).unwrap(), 0x0201);
    assert!(U16::<BigEndian>::decode(vec![1]).is_err());
}

#[test]
fn u32_codec() {
    assert_eq!(
        U32::<BigEndian>::encode(&456324548).unwrap(),
        456324548u32.to_be_bytes().to_vec()
    );
    assert_eq!(
        U32::<LittleEndian>::encode(&456324548).unwrap(),
        456324548u32.to_le_bytes().to_vec()
    );
    assert_eq!(
        U32::<LittleEndian>::decode(456324548u32.to_le_bytes().to_vec()).unwrap(),
        456324548
    );
    assert!(U32::<LittleEndian>::decode(vec![1, 2, 3]).is_err());
}

#[test]
fn u64_codec() {
    let n = 0x0102_0304_0506_0708u64;
    assert_eq!(U64::<BigEndian>::encode(&n).unwrap(), vec![1, 2, 3, 4, 5, 6, 7, 8]);
    assert_eq!(U64::<LittleEndian>::encode(&n).unwrap(), vec![8, 7, 6, 5, 4, 3, 2, 1]);
    assert_eq!(U64::<BigEndian>::decode(vec![1, 2, 3, 4, 5, 6, 7, 8, 9]).unwrap(), n);
    assert!(U64::<BigEndian>::decode(vec![1, 2, 3, 4, 5, 6, 7]).is_err());
}

#[test]
fn u128_codec() {
    let n = u128::MAX - 1;
    let bytes = U128::<BigEndian>::encode(&n).unwrap();
    assert_eq!(bytes.len(), 16);
    assert_eq!(bytes[15], 0xfe);
    assert_eq!(U128::<BigEndian>::decode(bytes).unwrap(), n);
    assert_eq!(U128::<LittleEndian>::decode(U128::<LittleEndian>::encode(&7).unwrap()).unwrap(), 7);
}

#[test]
fn signed_codecs() {
    assert_eq!(I16::<BigEndian>::encode(&-2).unwrap(), vec![0xff, 0xfe]);
    assert_eq!(I16::<LittleEndian>::encode(&-2).unwrap(), vec![0xfe, 0xff]);
    assert_eq!(I16::<BigEndian>::decode(vec![0x80, 0x00]).unwrap(), i16::MIN);
    assert_eq!(I32::<BigEndian>::encode(&-1).unwrap(), vec![0xff; 4]);
    assert_eq!(I32::<LittleEndian>::decode(vec![1, 0, 0, 0]).unwrap(), 1);
    assert_eq!(I64::<BigEndian>::decode(I64::<BigEndian>::encode(&i64::MIN).unwrap()).unwrap(), i64::MIN);
    assert_eq!(
        I128::<BigEndian>::encode(&i128::MIN).unwrap(),
        i128::MIN.to_be_bytes().to_vec()
    );
    assert_eq!(
        I128::<LittleEndian>::decode(I128::<LittleEndian>::encode(&-12345).unwrap()).unwrap(),
        -12345
    );
    assert!(I32::<BigEndian>::decode(vec![0xff]).is_err());
}

#[test]
fn str_codec() {
    assert_eq!(Str::encode("hello").unwrap(), b"hello".to_vec());
    assert_eq!(Str::encode("é").unwrap(), vec![0xc3, 0xa9]);
    assert_eq!(Str::decode(b"hello".to_vec()).unwrap(), "hello");
    assert_eq!(Str::decode(Vec::new()).unwrap(), "");
    assert!(Str::decode(vec![0xff, 0xfe]).is_err());
}

#[test]
fn unit_codec() {
    assert_eq!(Unit::encode(&()).unwrap(), Vec::<u8>::new());
    assert_eq!(Unit::decode(Vec::new()).unwrap(), ());
    assert_eq!(Unit::decode(vec![0]).unwrap_err(), NonEmptyError);
    assert_eq!(
        NonEmptyError.message(),
        "the slice of bytes is non-empty and therefore is not a unit `()` type"
    );
}

#[test]
fn bytes_codec() {
    assert_eq!(Bytes::encode(&[1u8, 2, 3][..]).unwrap(), vec![1, 2, 3]);
    assert_eq!(Bytes::decode(vec![4, 5]).unwrap(), vec![4, 5]);
    assert_eq!(Bytes::decode(Vec::new()).unwrap(), Vec::<u8>::new());
}

#[test]
fn decode_ignore_accepts_anything() {
    assert_eq!(DecodeIgnore::decode(vec![1, 2, 3]).unwrap(), ());
    assert_eq!(DecodeIgnore::decode(Vec::new()).unwrap(), ());
}

#[test]
fn short_input_is_unexpected_eof() {
    let kind = std::io::ErrorKind::UnexpectedEof;
    assert_eq!(U8::decode(Vec::new()).unwrap_err().kind(), kind);
    assert_eq!(I8::decode(Vec::new()).unwrap_err().kind(), kind);
    assert_eq!(U16::<BigEndian>::decode(vec![1]).unwrap_err().kind(), kind);
    assert_eq!(U32::<LittleEndian>::decode(vec![1, 2, 3]).unwrap_err().kind(), kind);
    assert_eq!(I32::<BigEndian>::decode(vec![0xff]).unwrap_err().kind(), kind);
    assert_eq!(U128::<LittleEndian>::decode(vec![0; 15]).unwrap_err().kind(), kind);
}
