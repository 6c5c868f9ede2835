//! The error type of the typed operations.
use vstd::prelude::*;

verus! {

/// Main error type of this crate.
/// When possible a `fjall::Error` is returned as it is, but when a key or a value has to be
/// encoded or decoded, the error of its codec is returned.
#[derive(Debug)]
pub enum TypedError<KeyError, ValueError> {
    /// An error of fjall itself. See [`fjall::Error`].
    Fjall(fjall::Error),
    /// The key codec failed to encode or decode a key.
    Key(KeyError),
    /// The value codec failed to encode or decode a value.
    Value(ValueError),
}

impl<KeyError, ValueError> TypedError<KeyError, ValueError> {
    /// Unwrap the `fjall::Error`; only a `Fjall` error may be unwrapped.
    pub fn unwrap_fjall(self) -> (r: fjall::Error)
        requires
            self is Fjall,
        ensures
            self == TypedError::<KeyError, ValueError>::Fjall(r),
    {
        match self {
            TypedError::Fjall(error) => error,
            TypedError::Key(_) => vstd::pervasive::unreached(),
            TypedError::Value(_) => vstd::pervasive::unreached(),
        }
    }
}

} // verus!
