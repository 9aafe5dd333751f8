//! The ways in which reading or rendering an archive fails.

use crate::text::{hex_text, push_hex};
use vstd::prelude::*;
use vstd::string::*;

verus! {

/// A failure of decoding or of rendering. Each one ends the work on its input.
#[derive(Clone, Copy, Debug, PartialEq, Eq, Structural)]
pub enum ZipError {
    /// A record's signature was read, and the input ended before the record did.
    TruncatedInput,
    /// The four bytes where a record should begin, read most significant first,
    /// are none of the known signatures.
    InvalidSignature(u32),
    /// The input ended before a first record began.
    EmptyOrUnreadable,
    /// A field that is printed as text does not hold well-formed UTF-8.
    NonTextField,
}

impl ZipError {
    /// The message of this failure.
    pub open spec fn text(self) -> Seq<char> {
        match self {
            ZipError::TruncatedInput => "Truncated input"@,
            ZipError::InvalidSignature(sig) => "Invalid signature: `"@ + hex_text(sig as nat, 8)
                + "`"@,
            ZipError::EmptyOrUnreadable => "Unexpected end of file"@,
            ZipError::NonTextField => "Field is not valid UTF-8 text"@,
        }
    }

    /// Writes the message of this failure.
    pub fn message(&self) -> (r: String)
        ensures
            r@ == self.text(),
    {
        match self {
            ZipError::TruncatedInput => String::from_str("Truncated input"),
            ZipError::InvalidSignature(sig) => {
                let mut out = String::from_str("Invalid signature: `");
                push_hex(&mut out, *sig, 8);
                out.append("`");
                out
            },
            ZipError::EmptyOrUnreadable => String::from_str("Unexpected end of file"),
            ZipError::NonTextField => String::from_str("Field is not valid UTF-8 text"),
        }
    }
}

} // verus!
