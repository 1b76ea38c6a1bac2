//! Instructions of the System Program.
use crate::layout::{lemma_u64_le_round_trip, u64_from_le, u64_to_le};
use vstd::prelude::*;

verus! {

/// An instruction of the System Program. The transfers are held in full;
/// every other instruction of the program is `Other`.
#[derive(Debug, PartialEq)]
pub enum SystemInstruction {
    /// Moves lamports from the funding account to the recipient.
    Transfer { lamports: u64 },
    /// Moves lamports out of an account whose address was derived from a
    /// base key, a seed and an owner.
    TransferWithSeed { lamports: u64, from_seed: String, from_owner: [u8; 32] },
    /// Another instruction of the System Program.
    Other,
}

/// A System Program instruction as a mathematical value.
pub enum SystemInstructionView {
    Transfer { lamports: u64 },
    TransferWithSeed { lamports: u64, from_seed: Seq<char>, from_owner: Seq<u8> },
    Other,
}

impl View for SystemInstruction {
    type V = SystemInstructionView;

    open spec fn view(&self) -> SystemInstructionView {
        match self {
            SystemInstruction::Transfer { lamports } => SystemInstructionView::Transfer {
                lamports: *lamports,
            },
            SystemInstruction::TransferWithSeed {
                lamports,
                from_seed,
                from_owner,
            } => SystemInstructionView::TransferWithSeed {
                lamports: *lamports,
                from_seed: from_seed@,
                from_owner: from_owner@,
            },
            SystemInstruction::Other => SystemInstructionView::Other,
        }
    }
}

impl Clone for SystemInstruction {
    fn clone(&self) -> (copy: Self)
        ensures
            copy@ == self@,
    {
        match self {
            SystemInstruction::Transfer { lamports } => SystemInstruction::Transfer {
                lamports: *lamports,
            },
            SystemInstruction::TransferWithSeed {
                lamports,
                from_seed,
                from_owner,
            } => SystemInstruction::TransferWithSeed {
                lamports: *lamports,
                from_seed: from_seed.clone(),
                from_owner: *from_owner,
            },
            SystemInstruction::Other => SystemInstruction::Other,
        }
    }
}

/// What decoding `data` as a System Program instruction gives: the
/// instruction, or the decoder's description of what is wrong with the bytes.
pub uninterp spec fn system_instruction_decoded(data: Seq<u8>) -> Result<
    SystemInstructionView,
    Seq<char>,
>;

/// The view of a decoding result.
pub open spec fn decoded_view(r: Result<SystemInstruction, String>) -> Result<
    SystemInstructionView,
    Seq<char>,
> {
    match r {
        Ok(instruction) => Ok(instruction@),
        Err(description) => Err(description@),
    }
}

/// Whether `data` is laid out as a plain transfer: the tag 2 in four bytes,
/// then at least the eight bytes of the amount.
pub open spec fn is_transfer_layout(data: Seq<u8>) -> bool {
    data.len() >= 12 && data[0] == 2 && data[1] == 0 && data[2] == 0 && data[3] == 0
}

/// Whether `r` reads `data` as a plain transfer exactly when the bytes are
/// laid out as one, with the amount that the eight bytes behind the tag
/// hold, the least significant byte first.
pub open spec fn reads_transfer(data: Seq<u8>, r: Result<SystemInstructionView, Seq<char>>) -> bool {
    &&& (r matches Ok(SystemInstructionView::Transfer { .. })) <==> is_transfer_layout(data)
    &&& r matches Ok(SystemInstructionView::Transfer { lamports }) ==> lamports == u64_from_le(
        data.subrange(4, 12),
    )
}

/// The payload of a plain transfer of `lamports`.
pub open spec fn transfer_payload(lamports: u64) -> Seq<u8> {
    seq![2u8, 0u8, 0u8, 0u8] + u64_to_le(lamports)
}

/// The payload of a transfer is laid out as a transfer and holds its
/// amount.
pub proof fn lemma_transfer_layout(lamports: u64)
    ensures
        is_transfer_layout(transfer_payload(lamports)),
        u64_from_le(transfer_payload(lamports).subrange(4, 12)) == lamports,
{
    lemma_u64_le_round_trip(lamports);
}

/// Decodes a System Program instruction with `bincode::deserialize`.
///
/// Trusted: the result is a function of the bytes alone. Bytes laid out as
/// a plain transfer, and no others, decode to `Transfer`, whose amount is
/// the little-endian number in the eight bytes behind the tag; bytes that
/// follow the instruction are ignored. An error is handed on as the text
/// that the decoder's error displays.
#[verifier::external_body]
#[allow(deprecated)]
pub(crate) fn decode_system_instruction(data: &[u8]) -> (r: Result<SystemInstruction, String>)
    ensures
        decoded_view(r) == system_instruction_decoded(data@),
        reads_transfer(data@, decoded_view(r)),
{
    match bincode::deserialize::<solana_sdk::system_instruction::SystemInstruction>(data) {
        Ok(solana_sdk::system_instruction::SystemInstruction::Transfer { lamports }) => Ok(SystemInstruction::Transfer { lamports }),
        Ok(solana_sdk::system_instruction::SystemInstruction::TransferWithSeed { lamports, from_seed, from_owner }) => Ok(
            SystemInstruction::TransferWithSeed {
                lamports,
                from_seed,
                from_owner: from_owner.to_bytes(),
            },
        ),
        Ok(_) => Ok(SystemInstruction::Other),
        Err(e) => Err(e.to_string()),
    }
}

} // verus!
