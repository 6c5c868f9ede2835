//! Bounds of a range of keys, and their encoding.
use crate::codec::Encode;
use vstd::prelude::*;

verus! {

/// One end of a range of keys.
pub enum KeyBound<T> {
    /// The range holds this key.
    Included(T),
    /// The range stops just short of this key.
    Excluded(T),
    /// The range is open at this end.
    Unbounded,
}

impl<T: View> View for KeyBound<T> {
    type V = KeyBound<T::V>;

    open spec fn view(&self) -> KeyBound<T::V> {
        match self {
            KeyBound::Included(key) => KeyBound::Included(key@),
            KeyBound::Excluded(key) => KeyBound::Excluded(key@),
            KeyBound::Unbounded => KeyBound::Unbounded,
        }
    }
}

/// The same bound over the encoded key, or `None` when the key cannot be encoded.
pub open spec fn encoded_bound<K: Encode>(bound: KeyBound<&K::Item>) -> Option<KeyBound<Seq<u8>>> {
    match bound {
        KeyBound::Included(key) => match K::spec_encode(key) {
            Some(bytes) => Some(KeyBound::Included(bytes)),
            None => None,
        },
        KeyBound::Excluded(key) => match K::spec_encode(key) {
            Some(bytes) => Some(KeyBound::Excluded(bytes)),
            None => None,
        },
        KeyBound::Unbounded => Some(KeyBound::Unbounded),
    }
}

/// Whether `e` is an error that encoding the key of the bound can give; an open bound has no key
/// and gives none.
pub open spec fn bound_error<K: Encode>(bound: KeyBound<&K::Item>, e: K::Error) -> bool {
    match bound {
        KeyBound::Included(key) => call_ensures(K::encode, (key,), Err(e)),
        KeyBound::Excluded(key) => call_ensures(K::encode, (key,), Err(e)),
        KeyBound::Unbounded => false,
    }
}

/// Encode the key of a bound; the bound stays included, excluded or open.
pub fn encode_bound<K: Encode>(bound: KeyBound<&K::Item>) -> (r: Result<KeyBound<Vec<u8>>, K::Error>)
    ensures
        r is Ok <==> encoded_bound::<K>(bound) is Some,
        r matches Ok(encoded) ==> encoded_bound::<K>(bound) == Some(encoded@),
        r matches Err(e) ==> bound_error::<K>(bound, e),
{
    match bound {
        KeyBound::Included(key) => match K::encode(key) {
            Ok(bytes) => Ok(KeyBound::Included(bytes)),
            Err(e) => Err(e),
        },
        KeyBound::Excluded(key) => match K::encode(key) {
            Ok(bytes) => Ok(KeyBound::Excluded(bytes)),
            Err(e) => Err(e),
        },
        KeyBound::Unbounded => Ok(KeyBound::Unbounded),
    }
}

/// Whether `e` is the error that encoding a range gives: that of the start key where the start
/// cannot be encoded, else that of the end key.
pub open spec fn range_error<K: Encode>(
    start: KeyBound<&K::Item>,
    end: KeyBound<&K::Item>,
    e: K::Error,
) -> bool {
    if encoded_bound::<K>(start) is None {
        bound_error::<K>(start, e)
    } else {
        bound_error::<K>(end, e)
    }
}

/// Encode both ends of a range of keys, the start first; fails when either key cannot be encoded,
/// with the error of the start key where that one cannot be encoded.
pub fn encode_range<K: Encode>(start: KeyBound<&K::Item>, end: KeyBound<&K::Item>) -> (r: Result<
    (KeyBound<Vec<u8>>, KeyBound<Vec<u8>>),
    K::Error,
>)
    ensures
        r is Ok <==> encoded_bound::<K>(start) is Some && encoded_bound::<K>(end) is Some,
        r matches Ok((s, e)) ==> encoded_bound::<K>(start) == Some(s@) && encoded_bound::<K>(end)
            == Some(e@),
        r matches Err(e) ==> range_error::<K>(start, end, e),
{
    let s = match encode_bound::<K>(start) {
        Ok(s) => s,
        Err(e) => return Err(e),
    };
    let e = match encode_bound::<K>(end) {
        Ok(e) => e,
        Err(err) => return Err(err),
    };
    Ok((s, e))
}

} // verus!
