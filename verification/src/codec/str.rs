//! Codec of strings, stored as their UTF-8 bytes.
use crate::codec::{Decode, Encode};
use core::convert::Infallible;
use vstd::prelude::*;
use vstd::utf8::{decode_utf8, encode_utf8, encode_utf8_decode_utf8, encode_utf8_valid_utf8, valid_utf8};

verus! {

#[verifier::external_type_specification]
#[verifier::external_body]
pub struct ExFromUtf8Error(std::string::FromUtf8Error);

/// A string, stored as its UTF-8 bytes with no length or terminator.
pub struct Str {}

impl Encode for Str {
    type Item = str;
    type Error = Infallible;

    open spec fn spec_encode(item: &str) -> Option<Seq<u8>> {
        Some(encode_utf8(item@))
    }

    fn encode(item: &str) -> (r: Result<Vec<u8>, Infallible>) {
        Ok(vstd::slice::slice_to_vec(item.as_bytes()))
    }
}

/// `String::from_utf8`: succeeds exactly when the bytes are valid UTF-8, and then holds the
/// characters that they encode.
#[verifier::external_body]
fn string_from_utf8(bytes: Vec<u8>) -> (r: Result<String, std::string::FromUtf8Error>)
    ensures
        r is Ok <==> valid_utf8(bytes@),
        r matches Ok(s) ==> s@ == decode_utf8(bytes@),
{
    String::from_utf8(bytes)
}

impl Decode for Str {
    type Item = String;
    type Error = std::string::FromUtf8Error;

    open spec fn decodable(bytes: Seq<u8>) -> bool {
        valid_utf8(bytes)
    }

    open spec fn decodes_to(bytes: Seq<u8>, item: String) -> bool {
        item@ == decode_utf8(bytes)
    }

    fn decode(bytes: Vec<u8>) -> (r: Result<String, std::string::FromUtf8Error>) {
        string_from_utf8(bytes)
    }
}

/// Decoding the encoding of a string gives back a string with the same characters.
pub proof fn lemma_str_roundtrip(item: &str)
    ensures
        Str::spec_encode(item) matches Some(bytes) && Str::decodable(bytes) && (forall|s: String|
            Str::decodes_to(bytes, s) <==> s@ == item@),
{
    encode_utf8_valid_utf8(item@);
    encode_utf8_decode_utf8(item@);
}

} // verus!
