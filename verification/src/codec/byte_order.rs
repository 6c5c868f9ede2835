//! Byte orders, the base-256 digits of a number, and the calls into
//! `byteorder` that write and read them.
use byteorder::ReadBytesExt;
use vstd::arithmetic::div_mod::{lemma_fundamental_div_mod_converse, lemma_mod_breakdown};
use vstd::prelude::*;

verus! {

#[verifier::external_type_specification]
#[verifier::external_body]
pub struct ExBigEndian(byteorder::BigEndian);

#[verifier::external_type_specification]
#[verifier::external_body]
pub struct ExLittleEndian(byteorder::LittleEndian);

#[verifier::external_type_specification]
#[verifier::external_body]
pub struct ExIoError(std::io::Error);

/// A byte order in which numbers wider than a byte are laid out.
pub trait Endianness {
    /// Whether the most significant byte comes first.
    spec fn is_big() -> bool;

    /// Whether the most significant byte comes first.
    fn big_endian() -> (r: bool)
        ensures
            r == Self::is_big(),
    ;
}

impl Endianness for byteorder::BigEndian {
    open spec fn is_big() -> bool {
        true
    }

    fn big_endian() -> (r: bool) {
        true
    }
}

impl Endianness for byteorder::LittleEndian {
    open spec fn is_big() -> bool {
        false
    }

    fn big_endian() -> (r: bool) {
        false
    }
}

/// `256` to the power `len`: the number of values that `len` bytes can hold.
pub open spec fn pow256(len: nat) -> nat
    decreases len,
{
    if len == 0 {
        1
    } else {
        256 * pow256((len - 1) as nat)
    }
}

/// The `len` base-256 digits of `n`, most significant first (`n` taken modulo `256^len`).
pub open spec fn be_bytes(n: nat, len: nat) -> Seq<u8>
    decreases len,
{
    if len == 0 {
        Seq::empty()
    } else {
        be_bytes(n / 256, (len - 1) as nat).push((n % 256) as u8)
    }
}

/// The number whose base-256 digits, most significant first, are `bytes`.
pub open spec fn be_value(bytes: Seq<u8>) -> nat
    decreases bytes.len(),
{
    if bytes.len() == 0 {
        0
    } else {
        (be_value(bytes.drop_last()) * 256 + bytes.last()) as nat
    }
}

/// The bytes of a number laid out in the byte order `O`, given its bytes most significant first.
pub open spec fn arrange<O: Endianness>(be: Seq<u8>) -> Seq<u8> {
    if O::is_big() {
        be
    } else {
        be.reverse()
    }
}

/// The two's complement of `n` on `len` bytes, as an unsigned number.
pub open spec fn twos(n: int, len: nat) -> nat {
    if n >= 0 {
        n as nat
    } else {
        (n + pow256(len)) as nat
    }
}

/// The signed number whose two's complement on `len` bytes is `u`.
pub open spec fn from_twos(u: nat, len: nat) -> int {
    if u >= pow256(len) / 2 {
        u - pow256(len)
    } else {
        u as int
    }
}

pub proof fn lemma_pow256_values()
    ensures
        pow256(1) == 0x100,
        pow256(2) == 0x10000,
        pow256(4) == 0x1_0000_0000,
        pow256(8) == 0x1_0000_0000_0000_0000,
        pow256(16) == 0x1_0000_0000_0000_0000_0000_0000_0000_0000,
{
    reveal_with_fuel(pow256, 17);
}

pub proof fn lemma_pow256_positive(len: nat)
    ensures
        pow256(len) > 0,
    decreases len,
{
    if len > 0 {
        lemma_pow256_positive((len - 1) as nat);
    }
}

/// `be_bytes` gives `len` bytes, and reading them back gives `n` modulo `256^len`.
pub proof fn lemma_be_bytes_value(n: nat, len: nat)
    ensures
        be_bytes(n, len).len() == len,
        be_value(be_bytes(n, len)) == n % pow256(len),
    decreases len,
{
    if len > 0 {
        let rest = be_bytes(n / 256, (len - 1) as nat);
        lemma_be_bytes_value(n / 256, (len - 1) as nat);
        lemma_pow256_positive((len - 1) as nat);
        assert(be_bytes(n, len).drop_last() =~= rest);
        lemma_mod_breakdown(n as int, 256, pow256((len - 1) as nat) as int);
    }
}

/// A number read from `bytes` is less than `256^len`.
pub proof fn lemma_be_value_bound(bytes: Seq<u8>)
    ensures
        be_value(bytes) < pow256(bytes.len()),
    decreases bytes.len(),
{
    if bytes.len() > 0 {
        lemma_be_value_bound(bytes.drop_last());
    }
}

/// Writing back the number read from `bytes` gives `bytes`.
pub proof fn lemma_value_be_bytes(bytes: Seq<u8>)
    ensures
        be_bytes(be_value(bytes), bytes.len()) == bytes,
    decreases bytes.len(),
{
    if bytes.len() > 0 {
        let w = be_value(bytes.drop_last());
        let v = be_value(bytes);
        lemma_fundamental_div_mod_converse(v as int, 256, w as int, bytes.last() as int);
        lemma_value_be_bytes(bytes.drop_last());
        assert(bytes.drop_last().push(bytes.last()) =~= bytes);
    }
}

/// Laying bytes out in a byte order twice gives them back.
pub proof fn lemma_arrange_twice<O: Endianness>(bytes: Seq<u8>)
    ensures
        arrange::<O>(arrange::<O>(bytes)) == bytes,
        arrange::<O>(bytes).len() == bytes.len(),
{
    if !O::is_big() {
        assert(bytes.reverse().reverse() =~= bytes);
    }
}

/// `BigEndian::write_u16`: the first two bytes of `buf` become `n`, most significant first.
#[verifier::external_body]
pub(crate) fn write_u16_be(buf: &mut Vec<u8>, n: u16)
    requires
        old(buf).len() >= 2,
    ensures
        final(buf)@ == be_bytes(n as nat, 2) + old(buf)@.skip(2),
{
    <byteorder::BigEndian as byteorder::ByteOrder>::write_u16(buf, n)
}

/// `LittleEndian::write_u16`: the first two bytes of `buf` become `n`, least significant first.
#[verifier::external_body]
pub(crate) fn write_u16_le(buf: &mut Vec<u8>, n: u16)
    requires
        old(buf).len() >= 2,
    ensures
        final(buf)@ == be_bytes(n as nat, 2).reverse() + old(buf)@.skip(2),
{
    <byteorder::LittleEndian as byteorder::ByteOrder>::write_u16(buf, n)
}

/// `BigEndian::write_u32`: the first four bytes of `buf` become `n`, most significant first.
#[verifier::external_body]
pub(crate) fn write_u32_be(buf: &mut Vec<u8>, n: u32)
    requires
        old(buf).len() >= 4,
    ensures
        final(buf)@ == be_bytes(n as nat, 4) + old(buf)@.skip(4),
{
    <byteorder::BigEndian as byteorder::ByteOrder>::write_u32(buf, n)
}

/// `LittleEndian::write_u32`: the first four bytes of `buf` become `n`, least significant first.
#[verifier::external_body]
pub(crate) fn write_u32_le(buf: &mut Vec<u8>, n: u32)
    requires
        old(buf).len() >= 4,
    ensures
        final(buf)@ == be_bytes(n as nat, 4).reverse() + old(buf)@.skip(4),
{
    <byteorder::LittleEndian as byteorder::ByteOrder>::write_u32(buf, n)
}

/// `BigEndian::write_u64`: the first eight bytes of `buf` become `n`, most significant first.
#[verifier::external_body]
pub(crate) fn write_u64_be(buf: &mut Vec<u8>, n: u64)
    requires
        old(buf).len() >= 8,
    ensures
        final(buf)@ == be_bytes(n as nat, 8) + old(buf)@.skip(8),
{
    <byteorder::BigEndian as byteorder::ByteOrder>::write_u64(buf, n)
}

/// `LittleEndian::write_u64`: the first eight bytes of `buf` become `n`, least significant first.
#[verifier::external_body]
pub(crate) fn write_u64_le(buf: &mut Vec<u8>, n: u64)
    requires
        old(buf).len() >= 8,
    ensures
        final(buf)@ == be_bytes(n as nat, 8).reverse() + old(buf)@.skip(8),
{
    <byteorder::LittleEndian as byteorder::ByteOrder>::write_u64(buf, n)
}

/// `BigEndian::write_u128`: the first sixteen bytes of `buf` become `n`, most significant first.
#[verifier::external_body]
pub(crate) fn write_u128_be(buf: &mut Vec<u8>, n: u128)
    requires
        old(buf).len() >= 16,
    ensures
        final(buf)@ == be_bytes(n as nat, 16) + old(buf)@.skip(16),
{
    <byteorder::BigEndian as byteorder::ByteOrder>::write_u128(buf, n)
}

/// `LittleEndian::write_u128`: the first sixteen bytes of `buf` become `n`, least significant first.
#[verifier::external_body]
pub(crate) fn write_u128_le(buf: &mut Vec<u8>, n: u128)
    requires
        old(buf).len() >= 16,
    ensures
        final(buf)@ == be_bytes(n as nat, 16).reverse() + old(buf)@.skip(16),
{
    <byteorder::LittleEndian as byteorder::ByteOrder>::write_u128(buf, n)
}

/// `BigEndian::write_i16`: the first two bytes of `buf` become the two's complement of `n`,
/// most significant first.
#[verifier::external_body]
pub(crate) fn write_i16_be(buf: &mut Vec<u8>, n: i16)
    requires
        old(buf).len() >= 2,
    ensures
        final(buf)@ == be_bytes(twos(n as int, 2), 2) + old(buf)@.skip(2),
{
    <byteorder::BigEndian as byteorder::ByteOrder>::write_i16(buf, n)
}

/// `LittleEndian::write_i16`: the first two bytes of `buf` become the two's complement of `n`,
/// least significant first.
#[verifier::external_body]
pub(crate) fn write_i16_le(buf: &mut Vec<u8>, n: i16)
    requires
        old(buf).len() >= 2,
    ensures
        final(buf)@ == be_bytes(twos(n as int, 2), 2).reverse() + old(buf)@.skip(2),
{
    <byteorder::LittleEndian as byteorder::ByteOrder>::write_i16(buf, n)
}

/// `BigEndian::write_i32`: the first four bytes of `buf` become the two's complement of `n`,
/// most significant first.
#[verifier::external_body]
pub(crate) fn write_i32_be(buf: &mut Vec<u8>, n: i32)
    requires
        old(buf).len() >= 4,
    ensures
        final(buf)@ == be_bytes(twos(n as int, 4), 4) + old(buf)@.skip(4),
{
    <byteorder::BigEndian as byteorder::ByteOrder>::write_i32(buf, n)
}

/// `LittleEndian::write_i32`: the first four bytes of `buf` become the two's complement of `n`,
/// least significant first.
#[verifier::external_body]
pub(crate) fn write_i32_le(buf: &mut Vec<u8>, n: i32)
    requires
        old(buf).len() >= 4,
    ensures
        final(buf)@ == be_bytes(twos(n as int, 4), 4).reverse() + old(buf)@.skip(4),
{
    <byteorder::LittleEndian as byteorder::ByteOrder>::write_i32(buf, n)
}

/// `BigEndian::write_i64`: the first eight bytes of `buf` become the two's complement of `n`,
/// most significant first.
#[verifier::external_body]
pub(crate) fn write_i64_be(buf: &mut Vec<u8>, n: i64)
    requires
        old(buf).len() >= 8,
    ensures
        final(buf)@ == be_bytes(twos(n as int, 8), 8) + old(buf)@.skip(8),
{
    <byteorder::BigEndian as byteorder::ByteOrder>::write_i64(buf, n)
}

/// `LittleEndian::write_i64`: the first eight bytes of `buf` become the two's complement of `n`,
/// least significant first.
#[verifier::external_body]
pub(crate) fn write_i64_le(buf: &mut Vec<u8>, n: i64)
    requires
        old(buf).len() >= 8,
    ensures
        final(buf)@ == be_bytes(twos(n as int, 8), 8).reverse() + old(buf)@.skip(8),
{
    <byteorder::LittleEndian as byteorder::ByteOrder>::write_i64(buf, n)
}

/// `BigEndian::write_i128`: the first sixteen bytes of `buf` become the two's complement of `n`,
/// most significant first.
#[verifier::external_body]
pub(crate) fn write_i128_be(buf: &mut Vec<u8>, n: i128)
    requires
        old(buf).len() >= 16,
    ensures
        final(buf)@ == be_bytes(twos(n as int, 16), 16) + old(buf)@.skip(16),
{
    <byteorder::BigEndian as byteorder::ByteOrder>::write_i128(buf, n)
}

/// `LittleEndian::write_i128`: the first sixteen bytes of `buf` become the two's complement of
/// `n`, least significant first.
#[verifier::external_body]
pub(crate) fn write_i128_le(buf: &mut Vec<u8>, n: i128)
    requires
        old(buf).len() >= 16,
    ensures
        final(buf)@ == be_bytes(twos(n as int, 16), 16).reverse() + old(buf)@.skip(16),
{
    <byteorder::LittleEndian as byteorder::ByteOrder>::write_i128(buf, n)
}

/// Whether [`std::io::Error::kind`] of the error is `std::io::ErrorKind::UnexpectedEof`, the
/// kind that `Read::read_exact` fails with when its input ends before the buffer is full.
pub uninterp spec fn is_unexpected_eof(error: std::io::Error) -> bool;

/// `ReadBytesExt::read_u8` on a byte slice: fails when it is empty, else gives its first byte.
#[verifier::external_body]
pub(crate) fn read_u8(bytes: &[u8]) -> (r: Result<u8, std::io::Error>)
    ensures
        r is Ok <==> bytes@.len() >= 1,
        r matches Err(e) ==> is_unexpected_eof(e),
        r matches Ok(v) ==> v == bytes@[0],
{
    let mut reader = bytes;
    reader.read_u8()
}

/// `ReadBytesExt::read_i8` on a byte slice: fails when it is empty, else gives the number whose
/// two's complement is its first byte.
#[verifier::external_body]
pub(crate) fn read_i8(bytes: &[u8]) -> (r: Result<i8, std::io::Error>)
    ensures
        r is Ok <==> bytes@.len() >= 1,
        r matches Err(e) ==> is_unexpected_eof(e),
        r matches Ok(v) ==> v == from_twos(bytes@[0] as nat, 1),
{
    let mut reader = bytes;
    reader.read_i8()
}

/// `ReadBytesExt::read_u16::<BigEndian>` on a byte slice: fails when it holds fewer than two
/// bytes, else reads the first two, most significant first.
#[verifier::external_body]
pub(crate) fn read_u16_be(bytes: &[u8]) -> (r: Result<u16, std::io::Error>)
    ensures
        r is Ok <==> bytes@.len() >= 2,
        r matches Err(e) ==> is_unexpected_eof(e),
        r matches Ok(v) ==> v == be_value(bytes@.take(2)),
{
    let mut reader = bytes;
    reader.read_u16::<byteorder::BigEndian>()
}

/// `ReadBytesExt::read_u16::<LittleEndian>` on a byte slice: fails when it holds fewer than two
/// bytes, else reads the first two, least significant first.
#[verifier::external_body]
pub(crate) fn read_u16_le(bytes: &[u8]) -> (r: Result<u16, std::io::Error>)
    ensures
        r is Ok <==> bytes@.len() >= 2,
        r matches Err(e) ==> is_unexpected_eof(e),
        r matches Ok(v) ==> v == be_value(bytes@.take(2).reverse()),
{
    let mut reader = bytes;
    reader.read_u16::<byteorder::LittleEndian>()
}

/// `ReadBytesExt::read_u32::<BigEndian>` on a byte slice: fails when it holds fewer than four
/// bytes, else reads the first four, most significant first.
#[verifier::external_body]
pub(crate) fn read_u32_be(bytes: &[u8]) -> (r: Result<u32, std::io::Error>)
    ensures
        r is Ok <==> bytes@.len() >= 4,
        r matches Err(e) ==> is_unexpected_eof(e),
        r matches Ok(v) ==> v == be_value(bytes@.take(4)),
{
    let mut reader = bytes;
    reader.read_u32::<byteorder::BigEndian>()
}

/// `ReadBytesExt::read_u32::<LittleEndian>` on a byte slice: fails when it holds fewer than four
/// bytes, else reads the first four, least significant first.
#[verifier::external_body]
pub(crate) fn read_u32_le(bytes: &[u8]) -> (r: Result<u32, std::io::Error>)
    ensures
        r is Ok <==> bytes@.len() >= 4,
        r matches Err(e) ==> is_unexpected_eof(e),
        r matches Ok(v) ==> v == be_value(bytes@.take(4).reverse()),
{
    let mut reader = bytes;
    reader.read_u32::<byteorder::LittleEndian>()
}

/// `ReadBytesExt::read_u64::<BigEndian>` on a byte slice: fails when it holds fewer than eight
/// bytes, else reads the first eight, most significant first.
#[verifier::external_body]
pub(crate) fn read_u64_be(bytes: &[u8]) -> (r: Result<u64, std::io::Error>)
    ensures
        r is Ok <==> bytes@.len() >= 8,
        r matches Err(e) ==> is_unexpected_eof(e),
        r matches Ok(v) ==> v == be_value(bytes@.take(8)),
{
    let mut reader = bytes;
    reader.read_u64::<byteorder::BigEndian>()
}

/// `ReadBytesExt::read_u64::<LittleEndian>` on a byte slice: fails when it holds fewer than eight
/// bytes, else reads the first eight, least significant first.
#[verifier::external_body]
pub(crate) fn read_u64_le(bytes: &[u8]) -> (r: Result<u64, std::io::Error>)
    ensures
        r is Ok <==> bytes@.len() >= 8,
        r matches Err(e) ==> is_unexpected_eof(e),
        r matches Ok(v) ==> v == be_value(bytes@.take(8).reverse()),
{
    let mut reader = bytes;
    reader.read_u64::<byteorder::LittleEndian>()
}

/// `ReadBytesExt::read_u128::<BigEndian>` on a byte slice: fails when it holds fewer than
/// sixteen bytes, else reads the first sixteen, most significant first.
#[verifier::external_body]
pub(crate) fn read_u128_be(bytes: &[u8]) -> (r: Result<u128, std::io::Error>)
    ensures
        r is Ok <==> bytes@.len() >= 16,
        r matches Err(e) ==> is_unexpected_eof(e),
        r matches Ok(v) ==> v == be_value(bytes@.take(16)),
{
    let mut reader = bytes;
    reader.read_u128::<byteorder::BigEndian>()
}

/// `ReadBytesExt::read_u128::<LittleEndian>` on a byte slice: fails when it holds fewer than
/// sixteen bytes, else reads the first sixteen, least significant first.
#[verifier::external_body]
pub(crate) fn read_u128_le(bytes: &[u8]) -> (r: Result<u128, std::io::Error>)
    ensures
        r is Ok <==> bytes@.len() >= 16,
        r matches Err(e) ==> is_unexpected_eof(e),
        r matches Ok(v) ==> v == be_value(bytes@.take(16).reverse()),
{
    let mut reader = bytes;
    reader.read_u128::<byteorder::LittleEndian>()
}

/// `ReadBytesExt::read_i16::<BigEndian>` on a byte slice: fails when it holds fewer than two
/// bytes, else reads the two's complement in the first two, most significant first.
#[verifier::external_body]
pub(crate) fn read_i16_be(bytes: &[u8]) -> (r: Result<i16, std::io::Error>)
    ensures
        r is Ok <==> bytes@.len() >= 2,
        r matches Err(e) ==> is_unexpected_eof(e),
        r matches Ok(v) ==> v == from_twos(be_value(bytes@.take(2)), 2),
{
    let mut reader = bytes;
    reader.read_i16::<byteorder::BigEndian>()
}

/// `ReadBytesExt::read_i16::<LittleEndian>` on a byte slice: fails when it holds fewer than two
/// bytes, else reads the two's complement in the first two, least significant first.
#[verifier::external_body]
pub(crate) fn read_i16_le(bytes: &[u8]) -> (r: Result<i16, std::io::Error>)
    ensures
        r is Ok <==> bytes@.len() >= 2,
        r matches Err(e) ==> is_unexpected_eof(e),
        r matches Ok(v) ==> v == from_twos(be_value(bytes@.take(2).reverse()), 2),
{
    let mut reader = bytes;
    reader.read_i16::<byteorder::LittleEndian>()
}

/// `ReadBytesExt::read_i32::<BigEndian>` on a byte slice: fails when it holds fewer than four
/// bytes, else reads the two's complement in the first four, most significant first.
#[verifier::external_body]
pub(crate) fn read_i32_be(bytes: &[u8]) -> (r: Result<i32, std::io::Error>)
    ensures
        r is Ok <==> bytes@.len() >= 4,
        r matches Err(e) ==> is_unexpected_eof(e),
        r matches Ok(v) ==> v == from_twos(be_value(bytes@.take(4)), 4),
{
    let mut reader = bytes;
    reader.read_i32::<byteorder::BigEndian>()
}

/// `ReadBytesExt::read_i32::<LittleEndian>` on a byte slice: fails when it holds fewer than four
/// bytes, else reads the two's complement in the first four, least significant first.
#[verifier::external_body]
pub(crate) fn read_i32_le(bytes: &[u8]) -> (r: Result<i32, std::io::Error>)
    ensures
        r is Ok <==> bytes@.len() >= 4,
        r matches Err(e) ==> is_unexpected_eof(e),
        r matches Ok(v) ==> v == from_twos(be_value(bytes@.take(4).reverse()), 4),
{
    let mut reader = bytes;
    reader.read_i32::<byteorder::LittleEndian>()
}

/// `ReadBytesExt::read_i64::<BigEndian>` on a byte slice: fails when it holds fewer than eight
/// bytes, else reads the two's complement in the first eight, most significant first.
#[verifier::external_body]
pub(crate) fn read_i64_be(bytes: &[u8]) -> (r: Result<i64, std::io::Error>)
    ensures
        r is Ok <==> bytes@.len() >= 8,
        r matches Err(e) ==> is_unexpected_eof(e),
        r matches Ok(v) ==> v == from_twos(be_value(bytes@.take(8)), 8),
{
    let mut reader = bytes;
    reader.read_i64::<byteorder::BigEndian>()
}

/// `ReadBytesExt::read_i64::<LittleEndian>` on a byte slice: fails when it holds fewer than eight
/// bytes, else reads the two's complement in the first eight, least significant first.
#[verifier::external_body]
pub(crate) fn read_i64_le(bytes: &[u8]) -> (r: Result<i64, std::io::Error>)
    ensures
        r is Ok <==> bytes@.len() >= 8,
        r matches Err(e) ==> is_unexpected_eof(e),
        r matches Ok(v) ==> v == from_twos(be_value(bytes@.take(8).reverse()), 8),
{
    let mut reader = bytes;
    reader.read_i64::<byteorder::LittleEndian>()
}

/// `ReadBytesExt::read_i128::<BigEndian>` on a byte slice: fails when it holds fewer than
/// sixteen bytes, else reads the two's complement in the first sixteen, most significant first.
#[verifier::external_body]
pub(crate) fn read_i128_be(bytes: &[u8]) -> (r: Result<i128, std::io::Error>)
    ensures
        r is Ok <==> bytes@.len() >= 16,
        r matches Err(e) ==> is_unexpected_eof(e),
        r matches Ok(v) ==> v == from_twos(be_value(bytes@.take(16)), 16),
{
    let mut reader = bytes;
    reader.read_i128::<byteorder::BigEndian>()
}

/// `ReadBytesExt::read_i128::<LittleEndian>` on a byte slice: fails when it holds fewer than
/// sixteen bytes, else reads the two's complement in the first sixteen, least significant first.
#[verifier::external_body]
pub(crate) fn read_i128_le(bytes: &[u8]) -> (r: Result<i128, std::io::Error>)
    ensures
        r is Ok <==> bytes@.len() >= 16,
        r matches Err(e) ==> is_unexpected_eof(e),
        r matches Ok(v) ==> v == from_twos(be_value(bytes@.take(16).reverse()), 16),
{
    let mut reader = bytes;
    reader.read_i128::<byteorder::LittleEndian>()
}

} // verus!
