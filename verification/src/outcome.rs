//! What the typed operations return, given what fjall answered.
use crate::codec::Decode;
use crate::error::TypedError;
use crate::limits::found_bytes;
use core::convert::Infallible;
use vstd::prelude::*;

verus! {

/// Whether `r` is fjall's answer `raw` passed on, with its error as a `TypedError::Fjall`.
pub open spec fn answer_result<T, KeyError, ValueError>(
    raw: Result<T, fjall::Error>,
    r: Result<T, TypedError<KeyError, ValueError>>,
) -> bool {
    match raw {
        Ok(v) => r matches Ok(w) && w == v,
        Err(e) => r matches Err(TypedError::Fjall(f)) && f == e,
    }
}

/// An answer of fjall, with its error as a `TypedError::Fjall`.
pub fn fjall_outcome<T, KeyError, ValueError>(raw: Result<T, fjall::Error>) -> (r: Result<
    T,
    TypedError<KeyError, ValueError>,
>)
    ensures
        answer_result(raw, r),
{
    match raw {
        Ok(v) => Ok(v),
        Err(e) => Err(TypedError::Fjall(e)),
    }
}

/// Whether `r` is the typed answer to a lookup that found `found`: nothing when nothing was
/// found, else the value decoded from the bytes found, or the value codec's error when they do
/// not hold a value.
pub open spec fn found_outcome<KeyError, V: Decode>(
    found: Option<Seq<u8>>,
    r: Result<Option<V::Item>, TypedError<KeyError, V::Error>>,
) -> bool {
    match found {
        None => r matches Ok(None),
        Some(bytes) => if V::decodable(bytes) {
            r matches Ok(Some(v)) && V::decodes_to(bytes, v)
        } else {
            r matches Err(TypedError::Value(_))
        },
    }
}

/// Whether `r` is the typed answer to a lookup that fjall answered with `raw`: its error, or what
/// [`found_outcome`] makes of the bytes found.
pub open spec fn lookup_result<KeyError, V: Decode>(
    raw: Result<Option<Vec<u8>>, fjall::Error>,
    r: Result<Option<V::Item>, TypedError<KeyError, V::Error>>,
) -> bool {
    match raw {
        Err(e) => r matches Err(TypedError::Fjall(f)) && f == e,
        Ok(found) => found_outcome::<KeyError, V>(found_bytes(found), r),
    }
}

/// The typed answer to a lookup: nothing when fjall found nothing, else the value decoded
/// from the bytes that it found.
pub fn lookup_outcome<KeyError, V: Decode>(raw: Result<Option<Vec<u8>>, fjall::Error>) -> (r: Result<
    Option<V::Item>,
    TypedError<KeyError, V::Error>,
>)
    ensures
        lookup_result::<KeyError, V>(raw, r),
{
    match raw {
        Err(e) => Err(TypedError::Fjall(e)),
        Ok(None) => Ok(None),
        Ok(Some(bytes)) => match V::decode(bytes) {
            Ok(v) => Ok(Some(v)),
            Err(e) => Err(TypedError::Value(e)),
        },
    }
}

/// Whether `r` is the key decoded from fjall's answer `raw`, or the error of either.
pub open spec fn key_result<K: Decode>(
    raw: Result<Vec<u8>, fjall::Error>,
    r: Result<K::Item, TypedError<K::Error, Infallible>>,
) -> bool {
    match raw {
        Err(e) => r matches Err(TypedError::Fjall(f)) && f == e,
        Ok(bytes) => if K::decodable(bytes@) {
            r matches Ok(k) && K::decodes_to(bytes@, k)
        } else {
            r matches Err(TypedError::Key(_))
        },
    }
}

/// The key decoded from the bytes that fjall gave.
pub fn key_outcome<K: Decode>(raw: Result<Vec<u8>, fjall::Error>) -> (r: Result<
    K::Item,
    TypedError<K::Error, Infallible>,
>)
    ensures
        key_result::<K>(raw, r),
{
    match raw {
        Err(e) => Err(TypedError::Fjall(e)),
        Ok(bytes) => match K::decode(bytes) {
            Ok(k) => Ok(k),
            Err(e) => Err(TypedError::Key(e)),
        },
    }
}

/// Whether `r` is the value decoded from fjall's answer `raw`, or the error of either.
pub open spec fn value_result<V: Decode>(
    raw: Result<Vec<u8>, fjall::Error>,
    r: Result<V::Item, TypedError<Infallible, V::Error>>,
) -> bool {
    match raw {
        Err(e) => r matches Err(TypedError::Fjall(f)) && f == e,
        Ok(bytes) => if V::decodable(bytes@) {
            r matches Ok(v) && V::decodes_to(bytes@, v)
        } else {
            r matches Err(TypedError::Value(_))
        },
    }
}

/// The value decoded from the bytes that fjall gave.
pub fn value_outcome<V: Decode>(raw: Result<Vec<u8>, fjall::Error>) -> (r: Result<
    V::Item,
    TypedError<Infallible, V::Error>,
>)
    ensures
        value_result::<V>(raw, r),
{
    match raw {
        Err(e) => Err(TypedError::Fjall(e)),
        Ok(bytes) => match V::decode(bytes) {
            Ok(v) => Ok(v),
            Err(e) => Err(TypedError::Value(e)),
        },
    }
}

/// Whether `r` is the key and the value decoded from fjall's answer `raw`, the key first, or the
/// first error.
pub open spec fn pair_result<K: Decode, V: Decode>(
    raw: Result<(Vec<u8>, Vec<u8>), fjall::Error>,
    r: Result<(K::Item, V::Item), TypedError<K::Error, V::Error>>,
) -> bool {
    match raw {
        Err(e) => r matches Err(TypedError::Fjall(f)) && f == e,
        Ok((kb, vb)) => if !K::decodable(kb@) {
            r matches Err(TypedError::Key(_))
        } else if !V::decodable(vb@) {
            r matches Err(TypedError::Value(_))
        } else {
            r matches Ok((k, v)) && K::decodes_to(kb@, k) && V::decodes_to(vb@, v)
        },
    }
}

/// The key and the value decoded from the pair of bytes that fjall gave; the key is decoded
/// first.
pub fn pair_outcome<K: Decode, V: Decode>(raw: Result<(Vec<u8>, Vec<u8>), fjall::Error>) -> (r: Result<
    (K::Item, V::Item),
    TypedError<K::Error, V::Error>,
>)
    ensures
        pair_result::<K, V>(raw, r),
{
    match raw {
        Err(e) => Err(TypedError::Fjall(e)),
        Ok((kb, vb)) => {
            let k = match K::decode(kb) {
                Ok(k) => k,
                Err(e) => return Err(TypedError::Key(e)),
            };
            match V::decode(vb) {
                Ok(v) => Ok((k, v)),
                Err(e) => Err(TypedError::Value(e)),
            }
        },
    }
}

} // verus!
