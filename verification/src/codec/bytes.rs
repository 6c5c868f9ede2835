//! Codec of raw bytes, stored as they are.
use crate::codec::{Decode, Encode};
use core::convert::Infallible;
use vstd::prelude::*;

verus! {

/// Raw bytes, stored as they are, with no length or terminator.
pub enum Bytes {
    /// No value of this codec exists: it is only a type.
    Uninhabited(Infallible),
}

impl Encode for Bytes {
    type Item = [u8];
    type Error = Infallible;

    open spec fn spec_encode(item: &[u8]) -> Option<Seq<u8>> {
        Some(item@)
    }

    fn encode(item: &[u8]) -> (r: Result<Vec<u8>, Infallible>) {
        Ok(vstd::slice::slice_to_vec(item))
    }
}

impl Decode for Bytes {
    type Item = Vec<u8>;
    type Error = Infallible;

    open spec fn decodable(bytes: Seq<u8>) -> bool {
        true
    }

    open spec fn decodes_to(bytes: Seq<u8>, item: Vec<u8>) -> bool {
        item@ == bytes
    }

    fn decode(bytes: Vec<u8>) -> (r: Result<Vec<u8>, Infallible>) {
        Ok(bytes)
    }
}

/// Decoding the encoding of some bytes gives them back.
pub proof fn lemma_bytes_roundtrip(item: &[u8])
    ensures
        Bytes::spec_encode(item) matches Some(bytes) && Bytes::decodable(bytes) && (forall|v: Vec<u8>|
            Bytes::decodes_to(bytes, v) <==> v@ == item@),
{
}

} // verus!
