//! The ways in which an operation of the emulator fails.

use crate::text::{binary, push_number};
use vstd::prelude::*;

verus! {

/// What is wrong with an instruction word that cannot be decoded.
#[derive(Debug, Clone, Copy, PartialEq, Eq, Structural)]
pub enum EncodingFault {
    /// The condition field holds `1111`, which the architecture reserves.
    ReservedCondition,
    /// Bits 27 to 25 of the word, which this holds, name no class of
    /// instructions that the decoder knows.
    UnknownClass(u8),
}

/// Why an operation failed. Every failure ends the operation that raised it.
#[derive(Debug, Clone, Copy, PartialEq, Eq, Structural)]
pub enum Error {
    /// A BIOS image does not have the size of the BIOS region.
    SizeMismatch,
    /// An instruction word is malformed.
    InvalidEncoding(EncodingFault),
    /// The request is understood, but nothing implements it yet.
    NotImplemented,
    /// The placeholder for an undecodable word reached the execute stage.
    UndefinedExecution,
}

impl Error {
    /// A sentence that describes the failure.
    pub open spec fn message_text(self) -> Seq<char> {
        match self {
            Error::SizeMismatch => "Bios image incorrect size: Expected 16384"@,
            Error::InvalidEncoding(EncodingFault::ReservedCondition) => {
                "Invalid encoding: reserved condition field"@
            },
            Error::InvalidEncoding(EncodingFault::UnknownClass(bits)) => {
                "Invalid encoding: received high bits of 0b"@ + binary(bits as nat, 1)
            },
            Error::NotImplemented => "Not implemented"@,
            Error::UndefinedExecution => "Tried to execute undefined instruction"@,
        }
    }

    /// The failure as a sentence for the user.
    pub fn message(&self) -> (text: String)
        ensures
            text@ == self.message_text(),
    {
        match self {
            Error::SizeMismatch => "Bios image incorrect size: Expected 16384".to_string(),
            Error::InvalidEncoding(EncodingFault::ReservedCondition) => {
                "Invalid encoding: reserved condition field".to_string()
            },
            Error::InvalidEncoding(EncodingFault::UnknownClass(bits)) => {
                let mut out = "Invalid encoding: received high bits of 0b".to_string();
                push_number(&mut out, *bits as u64, 2, 1);
                out
            },
            Error::NotImplemented => "Not implemented".to_string(),
            Error::UndefinedExecution => "Tried to execute undefined instruction".to_string(),
        }
    }
}

} // verus!
