//! Serialization.

use vstd::prelude::*;

mod unsupported;

pub mod args;
pub mod value;

pub use args::ArgsSerializer;
pub use unsupported::Unsupported;
pub use value::Value;
pub use value::ValueSerializer;

verus! {

/// Serialization error.
#[derive(Debug, PartialEq, Eq)]
#[non_exhaustive]
pub enum Error {
    /// The value has a shape that cannot be represented.
    UnsupportedType,
    /// A write-once serializer was written a second time.
    AlreadyUsed,
    /// The input bytes are not a UTF-8 encoded string.
    NonUtf8Bytes,
    /// Keys and values of a map arrived out of order.
    InvalidSerMap,
    /// A failure reported by the value that was being serialized.
    Custom(String),
}

/// The mathematical content of an [`Error`].
pub enum ErrorView {
    UnsupportedType,
    AlreadyUsed,
    NonUtf8Bytes,
    InvalidSerMap,
    Custom(Seq<char>),
}

impl View for Error {
    type V = ErrorView;

    open spec fn view(&self) -> ErrorView {
        match self {
            Error::UnsupportedType => ErrorView::UnsupportedType,
            Error::AlreadyUsed => ErrorView::AlreadyUsed,
            Error::NonUtf8Bytes => ErrorView::NonUtf8Bytes,
            Error::InvalidSerMap => ErrorView::InvalidSerMap,
            Error::Custom(msg) => ErrorView::Custom(msg@),
        }
    }
}

impl ErrorView {
    /// The text that describes the error to a reader.
    pub open spec fn message(self) -> Seq<char> {
        match self {
            ErrorView::UnsupportedType => "this type is unsupported"@,
            ErrorView::AlreadyUsed => "this serializer is already used"@,
            ErrorView::NonUtf8Bytes => "input bytes do not form a valid UTF-8 encoded string"@,
            ErrorView::InvalidSerMap => "invalid call sequence of map serialization methods"@,
            ErrorView::Custom(msg) => msg,
        }
    }
}

impl Error {
    /// An error that carries the message of a failure that arose inside the
    /// value being serialized.
    pub fn custom(msg: String) -> (e: Error)
        ensures
            e@ == ErrorView::Custom(msg@),
    {
        Error::Custom(msg)
    }

    /// The text that describes the error to a reader.
    pub fn message(&self) -> (s: String)
        ensures
            s@ == self@.message(),
    {
        match self {
            Error::UnsupportedType => "this type is unsupported".to_string(),
            Error::AlreadyUsed => "this serializer is already used".to_string(),
            Error::NonUtf8Bytes => "input bytes do not form a valid UTF-8 encoded string".to_string(),
            Error::InvalidSerMap => "invalid call sequence of map serialization methods".to_string(),
            Error::Custom(msg) => msg.clone(),
        }
    }
}

} // verus!
