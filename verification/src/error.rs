//! The fatal conditions that end the processing of a block.

use vstd::prelude::*;

verus! {

/// Why a block could not be processed. Every variant but `DecodeFailure`
/// reports a block that is inconsistent with its own encoding.
#[derive(Clone, Copy, Debug, PartialEq, Eq, Structural)]
pub enum Error {
    /// The block carries no timestamp.
    MissingTimestamp,
    /// A transaction carries no signature to identify it.
    MissingSignature,
    /// A transaction carries no message.
    MissingMessage,
    /// A transaction carries no status metadata.
    MissingMeta,
    /// An instruction names an account position that it does not have, or an
    /// index beyond the transaction's account table.
    AccountOutOfRange,
    /// The payload of an instruction addressed to the token program could not
    /// be decoded.
    DecodeFailure,
}

impl Error {
    /// Whether the error reports malformed input rather than an undecodable
    /// payload.
    pub open spec fn malformed_input(self) -> bool {
        self != Error::DecodeFailure
    }

    pub fn is_malformed_input(&self) -> (r: bool)
        ensures
            r == self.malformed_input(),
    {
        match self {
            Error::DecodeFailure => false,
            _ => true,
        }
    }

    /// A short description, for reports.
    pub fn message(&self) -> (r: &'static str)
        ensures
            r@ == self.message_text(),
    {
        match self {
            Error::MissingTimestamp => "block without a timestamp",
            Error::MissingSignature => "transaction without a signature",
            Error::MissingMessage => "transaction without a message",
            Error::MissingMeta => "transaction without status metadata",
            Error::AccountOutOfRange => "account index out of range",
            Error::DecodeFailure => "unpacking token instruction",
        }
    }

    pub open spec fn message_text(self) -> Seq<char> {
        match self {
            Error::MissingTimestamp => "block without a timestamp"@,
            Error::MissingSignature => "transaction without a signature"@,
            Error::MissingMessage => "transaction without a message"@,
            Error::MissingMeta => "transaction without status metadata"@,
            Error::AccountOutOfRange => "account index out of range"@,
            Error::DecodeFailure => "unpacking token instruction"@,
        }
    }
}

} // verus!
