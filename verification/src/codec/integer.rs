//! Codecs of integers: a byte for `u8` and `i8`, and for the wider integers their
//! fixed number of bytes in the byte order `O` (`byteorder::BigEndian` or
//! `byteorder::LittleEndian`).
use crate::codec::byte_order::{
    arrange, be_bytes, be_value, from_twos, lemma_arrange_twice, lemma_be_bytes_value,
    is_unexpected_eof, lemma_be_value_bound, lemma_pow256_values, lemma_value_be_bytes, read_i8, read_u8,
    twos, Endianness,
};
use crate::codec::byte_order::{
    read_i128_be, read_i128_le, read_i16_be, read_i16_le, read_i32_be, read_i32_le, read_i64_be,
    read_i64_le, read_u128_be, read_u128_le, read_u16_be, read_u16_le, read_u32_be, read_u32_le,
    read_u64_be, read_u64_le,
};
use crate::codec::byte_order::{
    write_i128_be, write_i128_le, write_i16_be, write_i16_le, write_i32_be, write_i32_le,
    write_i64_be, write_i64_le, write_u128_be, write_u128_le, write_u16_be, write_u16_le,
    write_u32_be, write_u32_le, write_u64_be, write_u64_le,
};
use crate::codec::{Decode, Encode};
use core::convert::Infallible;
use core::marker::PhantomData;
use vstd::prelude::*;

verus! {

/// Codec of `u8`: the byte itself.
pub enum U8 {
    /// No value of this codec exists: it is only a type.
    Uninhabited(Infallible),
}

impl Encode for U8 {
    type Item = u8;
    type Error = Infallible;

    open spec fn spec_encode(item: &u8) -> Option<Seq<u8>> {
        Some(seq![*item])
    }

    fn encode(item: &u8) -> (r: Result<Vec<u8>, Infallible>) {
        let bytes = vec![*item];
        assert(bytes@ =~= seq![*item]);
        Ok(bytes)
    }
}

impl Decode for U8 {
    type Item = u8;
    type Error = std::io::Error;

    open spec fn decodable(bytes: Seq<u8>) -> bool {
        bytes.len() >= 1
    }

    open spec fn decodes_to(bytes: Seq<u8>, item: u8) -> bool {
        item == bytes[0]
    }

    fn decode(bytes: Vec<u8>) -> (r: Result<u8, std::io::Error>)
        ensures
            r matches Err(e) ==> is_unexpected_eof(e),
    {
        read_u8(bytes.as_slice())
    }
}

/// The encoding of a `u8` has the integer's width, and decoding it gives the integer back.
pub proof fn lemma_u8_roundtrip(n: u8)
    ensures
        U8::spec_encode(&n) matches Some(bytes) && U8::decodable(bytes) && U8::decodes_to(bytes, n)
            && bytes.len() == 1,
{
}

/// A single byte is the encoding of the `u8` that it decodes to.
pub proof fn lemma_u8_canonical(bytes: Seq<u8>, n: u8)
    requires
        bytes.len() == 1,
        U8::decodes_to(bytes, n),
    ensures
        U8::spec_encode(&n) == Some(bytes),
{
    assert(bytes =~= seq![n]);
}

/// Codec of `i8`: the byte that holds its two's complement.
pub enum I8 {
    /// No value of this codec exists: it is only a type.
    Uninhabited(Infallible),
}

impl Encode for I8 {
    type Item = i8;
    type Error = Infallible;

    open spec fn spec_encode(item: &i8) -> Option<Seq<u8>> {
        Some(seq![twos(*item as int, 1) as u8])
    }

    fn encode(item: &i8) -> (r: Result<Vec<u8>, Infallible>) {
        let n = *item;
        let byte = n as u8;
        proof {
            lemma_pow256_values();
            assert(n < 0 ==> byte == n + 256) by (bit_vector)
                requires
                    byte == n as u8,
            ;
        }
        let bytes = vec![byte];
        assert(bytes@ =~= seq![twos(n as int, 1) as u8]);
        Ok(bytes)
    }
}

impl Decode for I8 {
    type Item = i8;
    type Error = std::io::Error;

    open spec fn decodable(bytes: Seq<u8>) -> bool {
        bytes.len() >= 1
    }

    open spec fn decodes_to(bytes: Seq<u8>, item: i8) -> bool {
        item == from_twos(bytes[0] as nat, 1)
    }

    fn decode(bytes: Vec<u8>) -> (r: Result<i8, std::io::Error>)
        ensures
            r matches Err(e) ==> is_unexpected_eof(e),
    {
        read_i8(bytes.as_slice())
    }
}

/// The encoding of an `i8` has the integer's width, and decoding it gives the integer back.
pub proof fn lemma_i8_roundtrip(n: i8)
    ensures
        I8::spec_encode(&n) matches Some(bytes) && I8::decodable(bytes) && I8::decodes_to(bytes, n)
            && bytes.len() == 1,
{
    lemma_pow256_values();
}

/// A single byte is the encoding of the `i8` that it decodes to.
pub proof fn lemma_i8_canonical(bytes: Seq<u8>, n: i8)
    requires
        bytes.len() == 1,
        I8::decodes_to(bytes, n),
    ensures
        I8::spec_encode(&n) == Some(bytes),
{
    lemma_pow256_values();
    assert(bytes =~= seq![twos(n as int, 1) as u8]);
}

/// Codec of `u16`: its two bytes in the byte order `O`.
pub struct U16<O>(PhantomData<O>);

impl<O: Endianness> Encode for U16<O> {
    type Item = u16;
    type Error = Infallible;

    open spec fn spec_encode(item: &u16) -> Option<Seq<u8>> {
        Some(arrange::<O>(be_bytes(*item as nat, 2)))
    }

    fn encode(item: &u16) -> (r: Result<Vec<u8>, Infallible>) {
        let n = *item;
        let mut buf: Vec<u8> = vec![0u8; 2];
        if O::big_endian() {
            write_u16_be(&mut buf, n);
        } else {
            write_u16_le(&mut buf, n);
        }
        proof {
            lemma_be_bytes_value(n as nat, 2);
        }
        assert(buf@ =~= arrange::<O>(be_bytes(n as nat, 2)));
        Ok(buf)
    }
}

impl<O: Endianness> Decode for U16<O> {
    type Item = u16;
    type Error = std::io::Error;

    open spec fn decodable(bytes: Seq<u8>) -> bool {
        bytes.len() >= 2
    }

    open spec fn decodes_to(bytes: Seq<u8>, item: u16) -> bool {
        item == be_value(arrange::<O>(bytes.take(2)))
    }

    fn decode(bytes: Vec<u8>) -> (r: Result<u16, std::io::Error>)
        ensures
            r matches Err(e) ==> is_unexpected_eof(e),
    {
        if O::big_endian() {
            read_u16_be(bytes.as_slice())
        } else {
            read_u16_le(bytes.as_slice())
        }
    }
}

/// The encoding of a `u16` has the integer's width, and decoding it gives the integer back.
pub proof fn lemma_u16_roundtrip<O: Endianness>(n: u16)
    ensures
        U16::<O>::spec_encode(&n) matches Some(bytes) && U16::<O>::decodable(bytes)
            && U16::<O>::decodes_to(bytes, n) && bytes.len() == 2,
{
    lemma_pow256_values();
    lemma_be_bytes_value(n as nat, 2);
    let be = be_bytes(n as nat, 2);
    lemma_arrange_twice::<O>(be);
    assert(arrange::<O>(be).take(2) =~= arrange::<O>(be));
}

/// Two bytes are the encoding of the `u16` that they decode to.
pub proof fn lemma_u16_canonical<O: Endianness>(bytes: Seq<u8>, n: u16)
    requires
        bytes.len() == 2,
        U16::<O>::decodes_to(bytes, n),
    ensures
        U16::<O>::spec_encode(&n) == Some(bytes),
{
    lemma_pow256_values();
    lemma_arrange_twice::<O>(bytes);
    assert(bytes.take(2) =~= bytes);
    lemma_value_be_bytes(arrange::<O>(bytes));
}

/// Codec of `u32`: its four bytes in the byte order `O`.
pub struct U32<O>(PhantomData<O>);

impl<O: Endianness> Encode for U32<O> {
    type Item = u32;
    type Error = Infallible;

    open spec fn spec_encode(item: &u32) -> Option<Seq<u8>> {
        Some(arrange::<O>(be_bytes(*item as nat, 4)))
    }

    fn encode(item: &u32) -> (r: Result<Vec<u8>, Infallible>) {
        let n = *item;
        let mut buf: Vec<u8> = vec![0u8; 4];
        if O::big_endian() {
            write_u32_be(&mut buf, n);
        } else {
            write_u32_le(&mut buf, n);
        }
        proof {
            lemma_be_bytes_value(n as nat, 4);
        }
        assert(buf@ =~= arrange::<O>(be_bytes(n as nat, 4)));
        Ok(buf)
    }
}

impl<O: Endianness> Decode for U32<O> {
    type Item = u32;
    type Error = std::io::Error;

    open spec fn decodable(bytes: Seq<u8>) -> bool {
        bytes.len() >= 4
    }

    open spec fn decodes_to(bytes: Seq<u8>, item: u32) -> bool {
        item == be_value(arrange::<O>(bytes.take(4)))
    }

    fn decode(bytes: Vec<u8>) -> (r: Result<u32, std::io::Error>)
        ensures
            r matches Err(e) ==> is_unexpected_eof(e),
    {
        if O::big_endian() {
            read_u32_be(bytes.as_slice())
        } else {
            read_u32_le(bytes.as_slice())
        }
    }
}

/// The encoding of a `u32` has the integer's width, and decoding it gives the integer back.
pub proof fn lemma_u32_roundtrip<O: Endianness>(n: u32)
    ensures
        U32::<O>::spec_encode(&n) matches Some(bytes) && U32::<O>::decodable(bytes)
            && U32::<O>::decodes_to(bytes, n) && bytes.len() == 4,
{
    lemma_pow256_values();
    lemma_be_bytes_value(n as nat, 4);
    let be = be_bytes(n as nat, 4);
    lemma_arrange_twice::<O>(be);
    assert(arrange::<O>(be).take(4) =~= arrange::<O>(be));
}

/// Four bytes are the encoding of the `u32` that they decode to.
pub proof fn lemma_u32_canonical<O: Endianness>(bytes: Seq<u8>, n: u32)
    requires
        bytes.len() == 4,
        U32::<O>::decodes_to(bytes, n),
    ensures
        U32::<O>::spec_encode(&n) == Some(bytes),
{
    lemma_pow256_values();
    lemma_arrange_twice::<O>(bytes);
    assert(bytes.take(4) =~= bytes);
    lemma_value_be_bytes(arrange::<O>(bytes));
}

/// Codec of `u64`: its eight bytes in the byte order `O`.
pub struct U64<O>(PhantomData<O>);

impl<O: Endianness> Encode for U64<O> {
    type Item = u64;
    type Error = Infallible;

    open spec fn spec_encode(item: &u64) -> Option<Seq<u8>> {
        Some(arrange::<O>(be_bytes(*item as nat, 8)))
    }

    fn encode(item: &u64) -> (r: Result<Vec<u8>, Infallible>) {
        let n = *item;
        let mut buf: Vec<u8> = vec![0u8; 8];
        if O::big_endian() {
            write_u64_be(&mut buf, n);
        } else {
            write_u64_le(&mut buf, n);
        }
        proof {
            lemma_be_bytes_value(n as nat, 8);
        }
        assert(buf@ =~= arrange::<O>(be_bytes(n as nat, 8)));
        Ok(buf)
    }
}

impl<O: Endianness> Decode for U64<O> {
    type Item = u64;
    type Error = std::io::Error;

    open spec fn decodable(bytes: Seq<u8>) -> bool {
        bytes.len() >= 8
    }

    open spec fn decodes_to(bytes: Seq<u8>, item: u64) -> bool {
        item == be_value(arrange::<O>(bytes.take(8)))
    }

    fn decode(bytes: Vec<u8>) -> (r: Result<u64, std::io::Error>)
        ensures
            r matches Err(e) ==> is_unexpected_eof(e),
    {
        if O::big_endian() {
            read_u64_be(bytes.as_slice())
        } else {
            read_u64_le(bytes.as_slice())
        }
    }
}

/// The encoding of a `u64` has the integer's width, and decoding it gives the integer back.
pub proof fn lemma_u64_roundtrip<O: Endianness>(n: u64)
    ensures
        U64::<O>::spec_encode(&n) matches Some(bytes) && U64::<O>::decodable(bytes)
            && U64::<O>::decodes_to(bytes, n) && bytes.len() == 8,
{
    lemma_pow256_values();
    lemma_be_bytes_value(n as nat, 8);
    let be = be_bytes(n as nat, 8);
    lemma_arrange_twice::<O>(be);
    assert(arrange::<O>(be).take(8) =~= arrange::<O>(be));
}

/// Eight bytes are the encoding of the `u64` that they decode to.
pub proof fn lemma_u64_canonical<O: Endianness>(bytes: Seq<u8>, n: u64)
    requires
        bytes.len() == 8,
        U64::<O>::decodes_to(bytes, n),
    ensures
        U64::<O>::spec_encode(&n) == Some(bytes),
{
    lemma_pow256_values();
    lemma_arrange_twice::<O>(bytes);
    assert(bytes.take(8) =~= bytes);
    lemma_value_be_bytes(arrange::<O>(bytes));
}

/// Codec of `u128`: its sixteen bytes in the byte order `O`.
pub struct U128<O>(PhantomData<O>);

impl<O: Endianness> Encode for U128<O> {
    type Item = u128;
    type Error = Infallible;

    open spec fn spec_encode(item: &u128) -> Option<Seq<u8>> {
        Some(arrange::<O>(be_bytes(*item as nat, 16)))
    }

    fn encode(item: &u128) -> (r: Result<Vec<u8>, Infallible>) {
        let n = *item;
        let mut buf: Vec<u8> = vec![0u8; 16];
        if O::big_endian() {
            write_u128_be(&mut buf, n);
        } else {
            write_u128_le(&mut buf, n);
        }
        proof {
            lemma_be_bytes_value(n as nat, 16);
        }
        assert(buf@ =~= arrange::<O>(be_bytes(n as nat, 16)));
        Ok(buf)
    }
}

impl<O: Endianness> Decode for U128<O> {
    type Item = u128;
    type Error = std::io::Error;

    open spec fn decodable(bytes: Seq<u8>) -> bool {
        bytes.len() >= 16
    }

    open spec fn decodes_to(bytes: Seq<u8>, item: u128) -> bool {
        item == be_value(arrange::<O>(bytes.take(16)))
    }

    fn decode(bytes: Vec<u8>) -> (r: Result<u128, std::io::Error>)
        ensures
            r matches Err(e) ==> is_unexpected_eof(e),
    {
        if O::big_endian() {
            read_u128_be(bytes.as_slice())
        } else {
            read_u128_le(bytes.as_slice())
        }
    }
}

/// The encoding of a `u128` has the integer's width, and decoding it gives the integer back.
pub proof fn lemma_u128_roundtrip<O: Endianness>(n: u128)
    ensures
        U128::<O>::spec_encode(&n) matches Some(bytes) && U128::<O>::decodable(bytes)
            && U128::<O>::decodes_to(bytes, n) && bytes.len() == 16,
{
    lemma_pow256_values();
    lemma_be_bytes_value(n as nat, 16);
    let be = be_bytes(n as nat, 16);
    lemma_arrange_twice::<O>(be);
    assert(arrange::<O>(be).take(16) =~= arrange::<O>(be));
}

/// Sixteen bytes are the encoding of the `u128` that they decode to.
pub proof fn lemma_u128_canonical<O: Endianness>(bytes: Seq<u8>, n: u128)
    requires
        bytes.len() == 16,
        U128::<O>::decodes_to(bytes, n),
    ensures
        U128::<O>::spec_encode(&n) == Some(bytes),
{
    lemma_pow256_values();
    lemma_arrange_twice::<O>(bytes);
    assert(bytes.take(16) =~= bytes);
    lemma_value_be_bytes(arrange::<O>(bytes));
}

/// Codec of `i16`: the two bytes of its two's complement, in the byte order `O`.
pub struct I16<O>(PhantomData<O>);

impl<O: Endianness> Encode for I16<O> {
    type Item = i16;
    type Error = Infallible;

    open spec fn spec_encode(item: &i16) -> Option<Seq<u8>> {
        Some(arrange::<O>(be_bytes(twos(*item as int, 2), 2)))
    }

    fn encode(item: &i16) -> (r: Result<Vec<u8>, Infallible>) {
        let n = *item;
        let mut buf: Vec<u8> = vec![0u8; 2];
        if O::big_endian() {
            write_i16_be(&mut buf, n);
        } else {
            write_i16_le(&mut buf, n);
        }
        proof {
            lemma_be_bytes_value(twos(n as int, 2), 2);
        }
        assert(buf@ =~= arrange::<O>(be_bytes(twos(n as int, 2), 2)));
        Ok(buf)
    }
}

impl<O: Endianness> Decode for I16<O> {
    type Item = i16;
    type Error = std::io::Error;

    open spec fn decodable(bytes: Seq<u8>) -> bool {
        bytes.len() >= 2
    }

    open spec fn decodes_to(bytes: Seq<u8>, item: i16) -> bool {
        item == from_twos(be_value(arrange::<O>(bytes.take(2))), 2)
    }

    fn decode(bytes: Vec<u8>) -> (r: Result<i16, std::io::Error>)
        ensures
            r matches Err(e) ==> is_unexpected_eof(e),
    {
        if O::big_endian() {
            read_i16_be(bytes.as_slice())
        } else {
            read_i16_le(bytes.as_slice())
        }
    }
}

/// The encoding of an `i16` has the integer's width, and decoding it gives the integer back.
pub proof fn lemma_i16_roundtrip<O: Endianness>(n: i16)
    ensures
        I16::<O>::spec_encode(&n) matches Some(bytes) && I16::<O>::decodable(bytes)
            && I16::<O>::decodes_to(bytes, n) && bytes.len() == 2,
{
    lemma_pow256_values();
    lemma_be_bytes_value(twos(n as int, 2), 2);
    let be = be_bytes(twos(n as int, 2), 2);
    lemma_arrange_twice::<O>(be);
    assert(arrange::<O>(be).take(2) =~= arrange::<O>(be));
}

/// Two bytes are the encoding of the `i16` that they decode to.
pub proof fn lemma_i16_canonical<O: Endianness>(bytes: Seq<u8>, n: i16)
    requires
        bytes.len() == 2,
        I16::<O>::decodes_to(bytes, n),
    ensures
        I16::<O>::spec_encode(&n) == Some(bytes),
{
    lemma_pow256_values();
    lemma_arrange_twice::<O>(bytes);
    assert(bytes.take(2) =~= bytes);
    let u = be_value(arrange::<O>(bytes));
    lemma_be_value_bound(arrange::<O>(bytes));
    lemma_value_be_bytes(arrange::<O>(bytes));
    assert(twos(n as int, 2) == u);
}

/// Codec of `i32`: the four bytes of its two's complement, in the byte order `O`.
pub struct I32<O>(PhantomData<O>);

impl<O: Endianness> Encode for I32<O> {
    type Item = i32;
    type Error = Infallible;

    open spec fn spec_encode(item: &i32) -> Option<Seq<u8>> {
        Some(arrange::<O>(be_bytes(twos(*item as int, 4), 4)))
    }

    fn encode(item: &i32) -> (r: Result<Vec<u8>, Infallible>) {
        let n = *item;
        let mut buf: Vec<u8> = vec![0u8; 4];
        if O::big_endian() {
            write_i32_be(&mut buf, n);
        } else {
            write_i32_le(&mut buf, n);
        }
        proof {
            lemma_be_bytes_value(twos(n as int, 4), 4);
        }
        assert(buf@ =~= arrange::<O>(be_bytes(twos(n as int, 4), 4)));
        Ok(buf)
    }
}

impl<O: Endianness> Decode for I32<O> {
    type Item = i32;
    type Error = std::io::Error;

    open spec fn decodable(bytes: Seq<u8>) -> bool {
        bytes.len() >= 4
    }

    open spec fn decodes_to(bytes: Seq<u8>, item: i32) -> bool {
        item == from_twos(be_value(arrange::<O>(bytes.take(4))), 4)
    }

    fn decode(bytes: Vec<u8>) -> (r: Result<i32, std::io::Error>)
        ensures
            r matches Err(e) ==> is_unexpected_eof(e),
    {
        if O::big_endian() {
            read_i32_be(bytes.as_slice())
        } else {
            read_i32_le(bytes.as_slice())
        }
    }
}

/// The encoding of an `i32` has the integer's width, and decoding it gives the integer back.
pub proof fn lemma_i32_roundtrip<O: Endianness>(n: i32)
    ensures
        I32::<O>::spec_encode(&n) matches Some(bytes) && I32::<O>::decodable(bytes)
            && I32::<O>::decodes_to(bytes, n) && bytes.len() == 4,
{
    lemma_pow256_values();
    lemma_be_bytes_value(twos(n as int, 4), 4);
    let be = be_bytes(twos(n as int, 4), 4);
    lemma_arrange_twice::<O>(be);
    assert(arrange::<O>(be).take(4) =~= arrange::<O>(be));
}

/// Four bytes are the encoding of the `i32` that they decode to.
pub proof fn lemma_i32_canonical<O: Endianness>(bytes: Seq<u8>, n: i32)
    requires
        bytes.len() == 4,
        I32::<O>::decodes_to(bytes, n),
    ensures
        I32::<O>::spec_encode(&n) == Some(bytes),
{
    lemma_pow256_values();
    lemma_arrange_twice::<O>(bytes);
    assert(bytes.take(4) =~= bytes);
    let u = be_value(arrange::<O>(bytes));
    lemma_be_value_bound(arrange::<O>(bytes));
    lemma_value_be_bytes(arrange::<O>(bytes));
    assert(twos(n as int, 4) == u);
}

/// Codec of `i64`: the eight bytes of its two's complement, in the byte order `O`.
pub struct I64<O>(PhantomData<O>);

impl<O: Endianness> Encode for I64<O> {
    type Item = i64;
    type Error = Infallible;

    open spec fn spec_encode(item: &i64) -> Option<Seq<u8>> {
        Some(arrange::<O>(be_bytes(twos(*item as int, 8), 8)))
    }

    fn encode(item: &i64) -> (r: Result<Vec<u8>, Infallible>) {
        let n = *item;
        let mut buf: Vec<u8> = vec![0u8; 8];
        if O::big_endian() {
            write_i64_be(&mut buf, n);
        } else {
            write_i64_le(&mut buf, n);
        }
        proof {
            lemma_be_bytes_value(twos(n as int, 8), 8);
        }
        assert(buf@ =~= arrange::<O>(be_bytes(twos(n as int, 8), 8)));
        Ok(buf)
    }
}

impl<O: Endianness> Decode for I64<O> {
    type Item = i64;
    type Error = std::io::Error;

    open spec fn decodable(bytes: Seq<u8>) -> bool {
        bytes.len() >= 8
    }

    open spec fn decodes_to(bytes: Seq<u8>, item: i64) -> bool {
        item == from_twos(be_value(arrange::<O>(bytes.take(8))), 8)
    }

    fn decode(bytes: Vec<u8>) -> (r: Result<i64, std::io::Error>)
        ensures
            r matches Err(e) ==> is_unexpected_eof(e),
    {
        if O::big_endian() {
            read_i64_be(bytes.as_slice())
        } else {
            read_i64_le(bytes.as_slice())
        }
    }
}

/// The encoding of an `i64` has the integer's width, and decoding it gives the integer back.
pub proof fn lemma_i64_roundtrip<O: Endianness>(n: i64)
    ensures
        I64::<O>::spec_encode(&n) matches Some(bytes) && I64::<O>::decodable(bytes)
            && I64::<O>::decodes_to(bytes, n) && bytes.len() == 8,
{
    lemma_pow256_values();
    lemma_be_bytes_value(twos(n as int, 8), 8);
    let be = be_bytes(twos(n as int, 8), 8);
    lemma_arrange_twice::<O>(be);
    assert(arrange::<O>(be).take(8) =~= arrange::<O>(be));
}

/// Eight bytes are the encoding of the `i64` that they decode to.
pub proof fn lemma_i64_canonical<O: Endianness>(bytes: Seq<u8>, n: i64)
    requires
        bytes.len() == 8,
        I64::<O>::decodes_to(bytes, n),
    ensures
        I64::<O>::spec_encode(&n) == Some(bytes),
{
    lemma_pow256_values();
    lemma_arrange_twice::<O>(bytes);
    assert(bytes.take(8) =~= bytes);
    let u = be_value(arrange::<O>(bytes));
    lemma_be_value_bound(arrange::<O>(bytes));
    lemma_value_be_bytes(arrange::<O>(bytes));
    assert(twos(n as int, 8) == u);
}

/// Codec of `i128`: the sixteen bytes of its two's complement, in the byte order `O`.
pub struct I128<O>(PhantomData<O>);

impl<O: Endianness> Encode for I128<O> {
    type Item = i128;
    type Error = Infallible;

    open spec fn spec_encode(item: &i128) -> Option<Seq<u8>> {
        Some(arrange::<O>(be_bytes(twos(*item as int, 16), 16)))
    }

    fn encode(item: &i128) -> (r: Result<Vec<u8>, Infallible>) {
        let n = *item;
        let mut buf: Vec<u8> = vec![0u8; 16];
        if O::big_endian() {
            write_i128_be(&mut buf, n);
        } else {
            write_i128_le(&mut buf, n);
        }
        proof {
            lemma_be_bytes_value(twos(n as int, 16), 16);
        }
        assert(buf@ =~= arrange::<O>(be_bytes(twos(n as int, 16), 16)));
        Ok(buf)
    }
}

impl<O: Endianness> Decode for I128<O> {
    type Item = i128;
    type Error = std::io::Error;

    open spec fn decodable(bytes: Seq<u8>) -> bool {
        bytes.len() >= 16
    }

    open spec fn decodes_to(bytes: Seq<u8>, item: i128) -> bool {
        item == from_twos(be_value(arrange::<O>(bytes.take(16))), 16)
    }

    fn decode(bytes: Vec<u8>) -> (r: Result<i128, std::io::Error>)
        ensures
            r matches Err(e) ==> is_unexpected_eof(e),
    {
        if O::big_endian() {
            read_i128_be(bytes.as_slice())
        } else {
            read_i128_le(bytes.as_slice())
        }
    }
}

/// The encoding of an `i128` has the integer's width, and decoding it gives the integer back.
pub proof fn lemma_i128_roundtrip<O: Endianness>(n: i128)
    ensures
        I128::<O>::spec_encode(&n) matches Some(bytes) && I128::<O>::decodable(bytes)
            && I128::<O>::decodes_to(bytes, n) && bytes.len() == 16,
{
    lemma_pow256_values();
    lemma_be_bytes_value(twos(n as int, 16), 16);
    let be = be_bytes(twos(n as int, 16), 16);
    lemma_arrange_twice::<O>(be);
    assert(arrange::<O>(be).take(16) =~= arrange::<O>(be));
}

/// Sixteen bytes are the encoding of the `i128` that they decode to.
pub proof fn lemma_i128_canonical<O: Endianness>(bytes: Seq<u8>, n: i128)
    requires
        bytes.len() == 16,
        I128::<O>::decodes_to(bytes, n),
    ensures
        I128::<O>::spec_encode(&n) == Some(bytes),
{
    lemma_pow256_values();
    lemma_arrange_twice::<O>(bytes);
    assert(bytes.take(16) =~= bytes);
    let u = be_value(arrange::<O>(bytes));
    lemma_be_value_bound(arrange::<O>(bytes));
    lemma_value_be_bytes(arrange::<O>(bytes));
    assert(twos(n as int, 16) == u);
}

} // verus!
