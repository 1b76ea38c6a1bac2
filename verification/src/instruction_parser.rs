//! Decoders that a user of the library supplies for further programs.
use crate::parsed_instruction::ParsedInstructionData;
use vstd::prelude::*;

verus! {

/// A decoder for the instructions of some programs.
pub trait InstructionParser {
    type ParseError;

    /// Decodes the instruction for the program with the key `program_id`;
    /// `None` where the decoder does not know the program.
    fn parse(&self, program_id: [u8; 32]) -> Option<Result<ParsedInstructionData, Self::ParseError>>;
}

} // verus!
