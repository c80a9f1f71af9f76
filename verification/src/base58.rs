//! Base58 text of addresses and signatures.

use vstd::prelude::*;

verus! {

/// The Base58 text of a byte string, in the Bitcoin alphabet.
pub uninterp spec fn base58(bytes: Seq<u8>) -> Seq<char>;

/// Encodes bytes as Base58 text.
///
/// Trusted: the body calls `bs58::encode(..).into_string()`, which encodes
/// with the crate's default (Bitcoin) alphabet and without a checksum. The
/// contract only gives the text the name [`base58`]: the same bytes always
/// give the same text.
#[verifier::external_body]
pub(crate) fn encode(bytes: &[u8]) -> (text: String)
    ensures
        text@ == base58(bytes@),
{
    bs58::encode(bytes).into_string()
}

} // verus!
