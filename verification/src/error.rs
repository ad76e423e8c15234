//! The one error type of the crate.
use vstd::prelude::*;

verus! {

/// Why a [`crate::Decimal`] could not be made.
#[derive(Debug)]
pub enum Error {
    /// The text is not a numeric literal.
    Parse,
    /// The text is a literal, but it spells a NaN.
    NotANumber,
    /// The text is a literal, but it spells an infinity.
    Infinite,
    /// A division or remainder gave a NaN or an infinity.
    NonFiniteResult,
    /// An inbound text did not give a finite decimal; holds that text.
    InvalidValue(String),
    /// An inbound value had a shape that cannot hold a decimal.
    UnexpectedType,
}

impl Error {
    /// The message of each error, as a sequence of characters.
    pub open spec fn message_spec(&self) -> Seq<char> {
        match self {
            Error::Parse => "Failed to parse"@,
            Error::NotANumber => "NaN is not supported"@,
            Error::Infinite => "Infinity is not supported"@,
            Error::NonFiniteResult => "Only finite value are supported"@,
            Error::InvalidValue(_) => "invalid value, expected a Decimal value"@,
            Error::UnexpectedType => "invalid type, expected a Decimal value"@,
        }
    }

    /// A human-readable message that tells the causes apart.
    pub fn message(&self) -> (r: &'static str)
        ensures
            r@ == self.message_spec(),
    {
        match self {
            Error::Parse => "Failed to parse",
            Error::NotANumber => "NaN is not supported",
            Error::Infinite => "Infinity is not supported",
            Error::NonFiniteResult => "Only finite value are supported",
            Error::InvalidValue(_) => "invalid value, expected a Decimal value",
            Error::UnexpectedType => "invalid type, expected a Decimal value",
        }
    }
}

} // verus!
