//! Instructions of the SPL Token 2022 program.
use crate::layout::{lemma_u64_le_round_trip, u64_from_le, u64_to_le};
use vstd::prelude::*;

verus! {

/// An instruction of the SPL Token 2022 program. The two transfers are held in
/// full; every other instruction of the program is `Other`.
#[derive(Debug, Clone, Copy, PartialEq, Eq, Structural)]
pub enum TokenInstruction {
    /// Moves `amount` tokens from the source to the destination account.
    Transfer { amount: u64 },
    /// As `Transfer`, naming the mint and the decimals that the amount is
    /// expressed in.
    TransferChecked { amount: u64, decimals: u8 },
    /// Another instruction of the program.
    Other,
}

/// What unpacking `data` as an SPL Token 2022 instruction gives: the instruction,
/// or the program's description of its error.
pub uninterp spec fn token_instruction_unpacked(data: Seq<u8>) -> Result<
    TokenInstruction,
    Seq<char>,
>;

/// The view of an unpacking result.
pub open spec fn unpacked_view(r: Result<TokenInstruction, String>) -> Result<
    TokenInstruction,
    Seq<char>,
> {
    match r {
        Ok(instruction) => Ok(instruction),
        Err(description) => Err(description@),
    }
}

/// Whether `data` is laid out as a transfer: the opcode 3, then at least
/// the eight bytes of the amount.
pub open spec fn is_transfer_layout(data: Seq<u8>) -> bool {
    data.len() >= 9 && data[0] == 3
}

/// Whether `data` is laid out as a checked transfer: the opcode 12, then at
/// least the eight bytes of the amount and the byte of the decimals.
pub open spec fn is_transfer_checked_layout(data: Seq<u8>) -> bool {
    data.len() >= 10 && data[0] == 12
}

/// Whether `r` reads `data` as a transfer or as a checked transfer exactly
/// when the bytes are laid out as one, with the amount that the eight bytes
/// behind the opcode hold, the least significant byte first, and with the
/// decimals that the byte after them holds.
pub open spec fn reads_transfers(data: Seq<u8>, r: Result<TokenInstruction, Seq<char>>) -> bool {
    &&& (r matches Ok(TokenInstruction::Transfer { .. })) <==> is_transfer_layout(data)
    &&& r matches Ok(TokenInstruction::Transfer { amount }) ==> amount == u64_from_le(
        data.subrange(1, 9),
    )
    &&& (r matches Ok(TokenInstruction::TransferChecked { .. })) <==> is_transfer_checked_layout(
        data,
    )
    &&& r matches Ok(TokenInstruction::TransferChecked { amount, decimals }) ==> amount
        == u64_from_le(data.subrange(1, 9)) && decimals == data[9]
}

/// The payload of a transfer of `amount`.
pub open spec fn transfer_payload(amount: u64) -> Seq<u8> {
    seq![3u8] + u64_to_le(amount)
}

/// The payload of a checked transfer of `amount`, expressed in `decimals`.
pub open spec fn transfer_checked_payload(amount: u64, decimals: u8) -> Seq<u8> {
    seq![12u8] + u64_to_le(amount) + seq![decimals]
}

/// The payload of a transfer is laid out as a transfer, not as a checked
/// transfer, and holds its amount.
pub proof fn lemma_transfer_layout(amount: u64)
    ensures
        is_transfer_layout(transfer_payload(amount)),
        !is_transfer_checked_layout(transfer_payload(amount)),
        u64_from_le(transfer_payload(amount).subrange(1, 9)) == amount,
{
    lemma_u64_le_round_trip(amount);
}

/// The payload of a checked transfer is laid out as a checked transfer, not
/// as a transfer, and holds its amount and its decimals.
pub proof fn lemma_transfer_checked_layout(amount: u64, decimals: u8)
    ensures
        is_transfer_checked_layout(transfer_checked_payload(amount, decimals)),
        !is_transfer_layout(transfer_checked_payload(amount, decimals)),
        u64_from_le(transfer_checked_payload(amount, decimals).subrange(1, 9)) == amount,
        transfer_checked_payload(amount, decimals)[9] == decimals,
{
    lemma_u64_le_round_trip(amount);
}

/// Unpacks an instruction with `spl_token_2022::instruction::TokenInstruction::unpack`.
///
/// Trusted: the result is a function of the bytes alone. Bytes laid out as
/// a transfer or as a checked transfer, and no others, unpack to that
/// instruction; the amount is the little-endian number in the eight bytes
/// behind the opcode, the decimals are the byte after it; bytes that follow
/// are ignored. An error is handed on as the text that it displays.
#[verifier::external_body]
#[allow(deprecated)]
pub(crate) fn unpack_token_instruction(data: &[u8]) -> (r: Result<TokenInstruction, String>)
    ensures
        unpacked_view(r) == token_instruction_unpacked(data@),
        reads_transfers(data@, unpacked_view(r)),
{
    match ::spl_token_2022::instruction::TokenInstruction::unpack(data) {
        Ok(::spl_token_2022::instruction::TokenInstruction::Transfer { amount }) => Ok(
            TokenInstruction::Transfer { amount },
        ),
        Ok(::spl_token_2022::instruction::TokenInstruction::TransferChecked { amount, decimals }) => Ok(
            TokenInstruction::TransferChecked { amount, decimals },
        ),
        Ok(_) => Ok(TokenInstruction::Other),
        Err(e) => Err(e.to_string()),
    }
}

} // verus!
