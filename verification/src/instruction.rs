//! The token-program instructions that the tracker tells apart.

use substreams_solana_program_instructions::token_instruction_2022::TokenInstruction as Packed;
use vstd::prelude::*;

verus! {

/// A decoded token-program instruction, reduced to what event extraction
/// reads: the variant, the raw amount, and the owner key carried in the
/// payload.
#[derive(Clone, Copy, Debug, PartialEq, Eq)]
pub enum TokenInstruction {
    Transfer { amount: u64 },
    TransferChecked { amount: u64 },
    MintTo { amount: u64 },
    MintToChecked { amount: u64 },
    Burn { amount: u64 },
    BurnChecked { amount: u64 },
    InitializeAccount,
    InitializeAccount2 { owner: [u8; 32] },
    InitializeAccount3 { owner: [u8; 32] },
    /// Any other instruction of the token program.
    Other,
}

/// What the token program's instruction decoder makes of a payload; `None`
/// where it rejects the payload.
pub uninterp spec fn unpacked(data: Seq<u8>) -> Option<TokenInstruction>;

/// Decodes the payload of an instruction addressed to the token program.
///
/// Trusted: the body calls `TokenInstruction::unpack` of
/// `substreams_solana_program_instructions::token_instruction_2022` and moves
/// the fields of the variants listed in [`TokenInstruction`] over; every other
/// variant becomes `Other`. The decoder reads nothing but the payload, so the
/// contract names its result [`unpacked`]; the decoder's error, which says
/// in words why a payload was rejected, is dropped for `None`.
#[verifier::external_body]
#[allow(deprecated)]
pub(crate) fn unpack(data: &[u8]) -> (r: Option<TokenInstruction>)
    ensures
        r == unpacked(data@),
{
    Some(match Packed::unpack(data).ok()? {
        Packed::Transfer { amount } => TokenInstruction::Transfer { amount },
        Packed::TransferChecked { amount, .. } => TokenInstruction::TransferChecked { amount },
        Packed::MintTo { amount } => TokenInstruction::MintTo { amount },
        Packed::MintToChecked { amount, .. } => TokenInstruction::MintToChecked { amount },
        Packed::Burn { amount } => TokenInstruction::Burn { amount },
        Packed::BurnChecked { amount, .. } => TokenInstruction::BurnChecked { amount },
        Packed::InitializeAccount => TokenInstruction::InitializeAccount,
        Packed::InitializeAccount2 { owner } => TokenInstruction::InitializeAccount2 { owner: owner.to_bytes() },
        Packed::InitializeAccount3 { owner } => TokenInstruction::InitializeAccount3 { owner: owner.to_bytes() },
        _ => TokenInstruction::Other,
    })
}

} // verus!
