use crate::codec::{Decode, Encode};
use vstd::prelude::*;

verus! {

/// Codec of the unit type `()`, stored as no bytes at all.
pub struct Unit {}

/// The slice of bytes is non-empty and therefore is not a unit `()` type.
#[derive(Debug, Clone, Copy, PartialEq, Eq, Hash, Structural)]
pub struct NonEmptyError;

impl NonEmptyError {
    /// The message that describes the error.
    pub fn message(&self) -> (r: &'static str)
        ensures
            r@ == "the slice of bytes is non-empty and therefore is not a unit `()` type"@,
    {
        "the slice of bytes is non-empty and therefore is not a unit `()` type"
    }
}

impl Encode for Unit {
    type Item = ();
    type Error = core::convert::Infallible;

    open spec fn spec_encode(item: &()) -> Option<Seq<u8>> {
        Some(Seq::empty())
    }

    fn encode(item: &()) -> (r: Result<Vec<u8>, core::convert::Infallible>) {
        Ok(Vec::new())
    }
}

impl Decode for Unit {
    type Item = ();
    type Error = NonEmptyError;

    open spec fn decodable(bytes: Seq<u8>) -> bool {
        bytes.len() == 0
    }

    open spec fn decodes_to(bytes: Seq<u8>, item: ()) -> bool {
        bytes.len() == 0
    }

    fn decode(bytes: Vec<u8>) -> (r: Result<(), NonEmptyError>) {
        if bytes.len() == 0 {
            Ok(())
        } else {
            Err(NonEmptyError)
        }
    }
}

/// Decoding the encoding of `()` gives it back, and only the empty bytes decode.
pub proof fn lemma_unit_roundtrip()
    ensures
        Unit::spec_encode(&()) matches Some(bytes) && Unit::decodable(bytes) && Unit::decodes_to(
            bytes,
            (),
        ),
        forall|bytes: Seq<u8>| Unit::decodable(bytes) ==> bytes == Seq::<u8>::empty(),
{
}

} // verus!
