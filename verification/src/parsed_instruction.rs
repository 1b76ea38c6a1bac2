//! Decoded instructions and the tree that the instructions of a transaction
//! form.
use crate::base58::{base58_decoded, decode_base58};
use crate::instructions::spl_token::TokenInstruction as SplTokenInstruction;
use crate::instructions::spl_token_2022::TokenInstruction as SplToken2022Instruction;
use crate::instructions::system::{SystemInstruction, SystemInstructionView};
use crate::instructions::{spl_token, spl_token_2022, system};
use crate::layout::u64_from_le;
use crate::pubkeys::{
    same_key, SPL_TOKEN_2022_PROGRAM_ID, SPL_TOKEN_PROGRAM_ID, SYSTEM_PROGRAM_ID,
};
use crate::token_transfer_data::TokenTransferData;
use crate::transaction::{
    CompiledInstruction, EncodedTransaction, InnerInstruction, InnerInstructionGroup, Message,
    TransactionRecord,
};
use crate::utils::TransactionAccounts;
use vstd::prelude::*;

verus! {

/// Why the program or the payload of an instruction could not be decoded.
/// Each variant holds the description that the decoder gave.
#[derive(Debug)]
pub enum ParseInstructionDataError {
    /// A token program rejected the payload.
    ProgramError(String),
    /// The program key or the payload is not Base58 text.
    ParseBase58Error(String),
    /// The program key does not have 32 bytes.
    ParsePubkeyError(String),
    /// The payload is no System Program instruction.
    BincodeError(String),
}

/// A decoding error as a mathematical value.
pub enum ParseErrorView {
    ProgramError(Seq<char>),
    ParseBase58Error(Seq<char>),
    ParsePubkeyError(Seq<char>),
    BincodeError(Seq<char>),
}

impl View for ParseInstructionDataError {
    type V = ParseErrorView;

    open spec fn view(&self) -> ParseErrorView {
        match self {
            ParseInstructionDataError::ProgramError(d) => ParseErrorView::ProgramError(d@),
            ParseInstructionDataError::ParseBase58Error(d) => ParseErrorView::ParseBase58Error(d@),
            ParseInstructionDataError::ParsePubkeyError(d) => ParseErrorView::ParsePubkeyError(d@),
            ParseInstructionDataError::BincodeError(d) => ParseErrorView::BincodeError(d@),
        }
    }
}

impl ParseErrorView {
    /// The message of the error: the kind of the error, a colon, and the
    /// description that the decoder gave.
    pub open spec fn message(self) -> Seq<char> {
        match self {
            ParseErrorView::ProgramError(d) => "program error: "@ + d,
            ParseErrorView::ParseBase58Error(d) => "FromBase58Error: "@ + d,
            ParseErrorView::ParsePubkeyError(d) => "parse pubkey error: "@ + d,
            ParseErrorView::BincodeError(d) => "bincode error: "@ + d,
        }
    }
}

impl ParseInstructionDataError {
    /// The message of the error.
    pub fn to_string(&self) -> (message: String)
        ensures
            message@ == self@.message(),
    {
        match self {
            ParseInstructionDataError::ProgramError(d) => {
                let mut message = String::from_str("program error: ");
                message.append(d.as_str());
                message
            },
            ParseInstructionDataError::ParseBase58Error(d) => {
                let mut message = String::from_str("FromBase58Error: ");
                message.append(d.as_str());
                message
            },
            ParseInstructionDataError::ParsePubkeyError(d) => {
                let mut message = String::from_str("parse pubkey error: ");
                message.append(d.as_str());
                message
            },
            ParseInstructionDataError::BincodeError(d) => {
                let mut message = String::from_str("bincode error: ");
                message.append(d.as_str());
                message
            },
        }
    }
}

/// What an instruction says, as far as its program is known.
#[derive(Debug, PartialEq)]
pub enum ParsedInstructionData {
    /// An instruction of the System Program.
    System(SystemInstruction),
    /// An instruction of the SPL Token program.
    SplToken(SplTokenInstruction),
    /// An instruction of the SPL Token 2022 program.
    SplToken2022(SplToken2022Instruction),
    /// The instruction of a known program could not be decoded; the message
    /// says why.
    Error(String),
    /// The instruction of a program that the library does not know.
    Unknown,
}

/// A decoded payload as a mathematical value.
pub enum InstructionDataView {
    System(SystemInstructionView),
    SplToken(SplTokenInstruction),
    SplToken2022(SplToken2022Instruction),
    Error(Seq<char>),
    Unknown,
}

impl View for ParsedInstructionData {
    type V = InstructionDataView;

    open spec fn view(&self) -> InstructionDataView {
        match self {
            ParsedInstructionData::System(i) => InstructionDataView::System(i@),
            ParsedInstructionData::SplToken(i) => InstructionDataView::SplToken(*i),
            ParsedInstructionData::SplToken2022(i) => InstructionDataView::SplToken2022(*i),
            ParsedInstructionData::Error(message) => InstructionDataView::Error(message@),
            ParsedInstructionData::Unknown => InstructionDataView::Unknown,
        }
    }
}

impl Clone for ParsedInstructionData {
    fn clone(&self) -> (copy: Self)
        ensures
            copy@ == self@,
    {
        match self {
            ParsedInstructionData::System(i) => ParsedInstructionData::System(i.clone()),
            ParsedInstructionData::SplToken(i) => ParsedInstructionData::SplToken(*i),
            ParsedInstructionData::SplToken2022(i) => ParsedInstructionData::SplToken2022(*i),
            ParsedInstructionData::Error(message) => ParsedInstructionData::Error(message.clone()),
            ParsedInstructionData::Unknown => ParsedInstructionData::Unknown,
        }
    }
}

/// The payload of an instruction, as bytes or as Base58 text.
pub enum InstructionDataFormat<'a> {
    Binary(&'a [u8]),
    Base58(&'a str),
}

/// The program of an instruction, as a key or as Base58 text.
pub enum InstructionProgramId<'a> {
    Pubkey(&'a [u8; 32]),
    Base58(&'a str),
}

/// The view of a decoding result.
pub open spec fn parsed_view(r: Result<ParsedInstructionData, ParseInstructionDataError>) -> Result<
    InstructionDataView,
    ParseErrorView,
> {
    match r {
        Ok(data) => Ok(data@),
        Err(e) => Err(e@),
    }
}

/// The description of a program key of the wrong length.
pub open spec fn pubkey_length_description() -> Seq<char> {
    "parse pubkey error"@
}

/// The key that Base58 text stands for: the text must decode, and to
/// exactly 32 bytes.
pub open spec fn program_key_of_text(text: Seq<char>) -> Result<Seq<u8>, ParseErrorView> {
    match base58_decoded(text) {
        Ok(bytes) => if bytes.len() == 32 {
            Ok(bytes)
        } else {
            Err(ParseErrorView::ParsePubkeyError(pubkey_length_description()))
        },
        Err(d) => Err(ParseErrorView::ParseBase58Error(d)),
    }
}

/// The bytes that Base58 text stands for, of any length.
pub open spec fn payload_of_text(text: Seq<char>) -> Result<Seq<u8>, ParseErrorView> {
    match base58_decoded(text) {
        Ok(bytes) => Ok(bytes),
        Err(d) => Err(ParseErrorView::ParseBase58Error(d)),
    }
}

/// What the payload `data` of an instruction of the program `program`
/// decodes to. The program is matched against the System Program, the SPL
/// Token program and the SPL Token 2022 program, in that order; the payload
/// of any other program is `Unknown`.
pub open spec fn decoded_payload(program: Seq<u8>, data: Seq<u8>) -> Result<
    InstructionDataView,
    ParseErrorView,
> {
    if program == SYSTEM_PROGRAM_ID@ {
        match system::system_instruction_decoded(data) {
            Ok(i) => Ok(InstructionDataView::System(i)),
            Err(d) => Err(ParseErrorView::BincodeError(d)),
        }
    } else if program == SPL_TOKEN_PROGRAM_ID@ {
        match spl_token::token_instruction_unpacked(data) {
            Ok(i) => Ok(InstructionDataView::SplToken(i)),
            Err(d) => Err(ParseErrorView::ProgramError(d)),
        }
    } else if program == SPL_TOKEN_2022_PROGRAM_ID@ {
        match spl_token_2022::token_instruction_unpacked(data) {
            Ok(i) => Ok(InstructionDataView::SplToken2022(i)),
            Err(d) => Err(ParseErrorView::ProgramError(d)),
        }
    } else {
        Ok(InstructionDataView::Unknown)
    }
}

/// Whether `r` reads the payload `data` of `program` as a transfer exactly
/// when the program is the System Program or a token program and the bytes
/// are laid out as a transfer of that program, and then with the amount, and
/// for a checked transfer the decimals, that the bytes hold.
pub open spec fn reads_transfers(
    program: Seq<u8>,
    data: Seq<u8>,
    r: Result<InstructionDataView, ParseErrorView>,
) -> bool {
    &&& (r matches Ok(InstructionDataView::System(SystemInstructionView::Transfer { .. }))) <==> program == SYSTEM_PROGRAM_ID@ && system::is_transfer_layout(data)
    &&& r matches Ok(InstructionDataView::System(SystemInstructionView::Transfer { lamports }))
        ==> lamports == u64_from_le(data.subrange(4, 12))
    &&& (r matches Ok(InstructionDataView::SplToken(SplTokenInstruction::Transfer { .. }))) <==> program == SPL_TOKEN_PROGRAM_ID@ && spl_token::is_transfer_layout(data)
    &&& r matches Ok(InstructionDataView::SplToken(SplTokenInstruction::Transfer { amount }))
        ==> amount == u64_from_le(data.subrange(1, 9))
    &&& (r matches Ok(InstructionDataView::SplToken(SplTokenInstruction::TransferChecked { .. }))) <==> program == SPL_TOKEN_PROGRAM_ID@ && spl_token::is_transfer_checked_layout(data)
    &&& r matches Ok(
        InstructionDataView::SplToken(SplTokenInstruction::TransferChecked { amount, decimals }),
    ) ==> amount == u64_from_le(data.subrange(1, 9)) && decimals == data[9]
    &&& (r matches Ok(InstructionDataView::SplToken2022(SplToken2022Instruction::Transfer { .. }))) <==> program == SPL_TOKEN_2022_PROGRAM_ID@ && spl_token_2022::is_transfer_layout(data)
    &&& r matches Ok(
        InstructionDataView::SplToken2022(SplToken2022Instruction::Transfer { amount }),
    ) ==> amount == u64_from_le(data.subrange(1, 9))
    &&& (r matches Ok(
        InstructionDataView::SplToken2022(SplToken2022Instruction::TransferChecked { .. }),
    )) <==> program == SPL_TOKEN_2022_PROGRAM_ID@ && spl_token_2022::is_transfer_checked_layout(
        data,
    )
    &&& r matches Ok(
        InstructionDataView::SplToken2022(
            SplToken2022Instruction::TransferChecked { amount, decimals },
        ),
    ) ==> amount == u64_from_le(data.subrange(1, 9)) && decimals == data[9]
}

/// Whether `r` gives back what a transfer payload was made from: where
/// `data` is the payload of a transfer of `program`, `r` is that transfer.
pub open spec fn round_trips(
    program: Seq<u8>,
    data: Seq<u8>,
    r: Result<InstructionDataView, ParseErrorView>,
) -> bool {
    &&& forall|lamports: u64|
        program == SYSTEM_PROGRAM_ID@ && data == #[trigger] system::transfer_payload(lamports)
            ==> r == Ok::<InstructionDataView, ParseErrorView>(
            InstructionDataView::System(SystemInstructionView::Transfer { lamports }),
        )
    &&& forall|amount: u64|
        program == SPL_TOKEN_PROGRAM_ID@ && data == #[trigger] spl_token::transfer_payload(amount)
            ==> r == Ok::<InstructionDataView, ParseErrorView>(
            InstructionDataView::SplToken(SplTokenInstruction::Transfer { amount }),
        )
    &&& forall|amount: u64, decimals: u8|
        program == SPL_TOKEN_PROGRAM_ID@ && data == #[trigger] spl_token::transfer_checked_payload(
            amount,
            decimals,
        ) ==> r == Ok::<InstructionDataView, ParseErrorView>(
            InstructionDataView::SplToken(SplTokenInstruction::TransferChecked { amount, decimals }),
        )
    &&& forall|amount: u64|
        program == SPL_TOKEN_2022_PROGRAM_ID@ && data
            == #[trigger] spl_token_2022::transfer_payload(amount) ==> r == Ok::<
            InstructionDataView,
            ParseErrorView,
        >(InstructionDataView::SplToken2022(SplToken2022Instruction::Transfer { amount }))
    &&& forall|amount: u64, decimals: u8|
        program == SPL_TOKEN_2022_PROGRAM_ID@ && data
            == #[trigger] spl_token_2022::transfer_checked_payload(amount, decimals) ==> r == Ok::<
            InstructionDataView,
            ParseErrorView,
        >(
            InstructionDataView::SplToken2022(
                SplToken2022Instruction::TransferChecked { amount, decimals },
            ),
        )
}

/// Reading transfers by their layout gives back what a transfer payload was
/// made from.
pub proof fn lemma_reading_round_trips(
    program: Seq<u8>,
    data: Seq<u8>,
    r: Result<InstructionDataView, ParseErrorView>,
)
    requires
        reads_transfers(program, data, r),
    ensures
        round_trips(program, data, r),
{
    assert forall|lamports: u64|
        program == SYSTEM_PROGRAM_ID@ && data == #[trigger] system::transfer_payload(
            lamports,
        ) implies r == Ok::<InstructionDataView, ParseErrorView>(
        InstructionDataView::System(SystemInstructionView::Transfer { lamports }),
    ) by {
        system::lemma_transfer_layout(lamports);
    }
    assert forall|amount: u64|
        program == SPL_TOKEN_PROGRAM_ID@ && data == #[trigger] spl_token::transfer_payload(
            amount,
        ) implies r == Ok::<InstructionDataView, ParseErrorView>(
        InstructionDataView::SplToken(SplTokenInstruction::Transfer { amount }),
    ) by {
        spl_token::lemma_transfer_layout(amount);
    }
    assert forall|amount: u64, decimals: u8|
        program == SPL_TOKEN_PROGRAM_ID@ && data == #[trigger] spl_token::transfer_checked_payload(
            amount,
            decimals,
        ) implies r == Ok::<InstructionDataView, ParseErrorView>(
        InstructionDataView::SplToken(SplTokenInstruction::TransferChecked { amount, decimals }),
    ) by {
        spl_token::lemma_transfer_checked_layout(amount, decimals);
    }
    assert forall|amount: u64|
        program == SPL_TOKEN_2022_PROGRAM_ID@ && data == #[trigger] spl_token_2022::transfer_payload(
            amount,
        ) implies r == Ok::<InstructionDataView, ParseErrorView>(
        InstructionDataView::SplToken2022(SplToken2022Instruction::Transfer { amount }),
    ) by {
        spl_token_2022::lemma_transfer_layout(amount);
    }
    assert forall|amount: u64, decimals: u8|
        program == SPL_TOKEN_2022_PROGRAM_ID@ && data
            == #[trigger] spl_token_2022::transfer_checked_payload(amount, decimals) implies r
        == Ok::<InstructionDataView, ParseErrorView>(
        InstructionDataView::SplToken2022(
            SplToken2022Instruction::TransferChecked { amount, decimals },
        ),
    ) by {
        spl_token_2022::lemma_transfer_checked_layout(amount, decimals);
    }
}

/// What a program and a payload that arrive as Base58 text decode to. The
/// program key is decoded first, so its error comes first.
pub open spec fn decoded_text(program: Seq<char>, data: Seq<char>) -> Result<
    InstructionDataView,
    ParseErrorView,
> {
    match program_key_of_text(program) {
        Err(e) => Err(e),
        Ok(key) => match payload_of_text(data) {
            Err(e) => Err(e),
            Ok(bytes) => decoded_payload(key, bytes),
        },
    }
}

impl<'a> InstructionProgramId<'a> {
    /// The key of the program.
    pub open spec fn key(self) -> Result<Seq<u8>, ParseErrorView> {
        match self {
            InstructionProgramId::Pubkey(key) => Ok(key@),
            InstructionProgramId::Base58(text) => program_key_of_text(text@),
        }
    }
}

impl<'a> InstructionDataFormat<'a> {
    /// The bytes of the payload.
    pub open spec fn bytes(self) -> Result<Seq<u8>, ParseErrorView> {
        match self {
            InstructionDataFormat::Binary(bytes) => Ok(bytes@),
            InstructionDataFormat::Base58(text) => payload_of_text(text@),
        }
    }
}

/// What an instruction decodes to, whatever form its program and its
/// payload arrive in.
pub open spec fn decoded(program_id: InstructionProgramId, data: InstructionDataFormat) -> Result<
    InstructionDataView,
    ParseErrorView,
> {
    match program_id.key() {
        Err(e) => Err(e),
        Ok(key) => match data.bytes() {
            Err(e) => Err(e),
            Ok(bytes) => decoded_payload(key, bytes),
        },
    }
}

/// The key that `bytes` hold: they must be exactly 32.
pub fn pubkey_from_bytes(bytes: &Vec<u8>) -> (r: Result<[u8; 32], ParseInstructionDataError>)
    ensures
        match r {
            Ok(key) => bytes@.len() == 32 && key@ == bytes@,
            Err(e) => bytes@.len() != 32 && e@ == ParseErrorView::ParsePubkeyError(
                pubkey_length_description(),
            ),
        },
{
    if bytes.len() != 32 {
        return Err(
            ParseInstructionDataError::ParsePubkeyError(String::from_str("parse pubkey error")),
        );
    }
    let mut key: [u8; 32] = [0u8;32];
    let mut i: usize = 0;
    while i < 32
        invariant
            i <= 32,
            bytes@.len() == 32,
            forall|j: int| 0 <= j < i ==> key@[j] == bytes@[j],
        decreases 32 - i,
    {
        key.set(i, bytes[i]);
        i += 1;
    }
    Ok(key)
}

impl ParsedInstructionData {
    /// Decodes an instruction from its program and its payload, each as
    /// bytes or as Base58 text.
    ///
    /// A transfer is read by its layout, so decoding the payload of a
    /// transfer gives back the amount that the payload was made from.
    pub fn parse(program_id: InstructionProgramId, data: InstructionDataFormat) -> (r: Result<
        Self,
        ParseInstructionDataError,
    >)
        ensures
            parsed_view(r) == decoded(program_id, data),
            program_id.key() is Ok && data.bytes() is Ok ==> reads_transfers(
                program_id.key()->Ok_0,
                data.bytes()->Ok_0,
                parsed_view(r),
            ) && round_trips(program_id.key()->Ok_0, data.bytes()->Ok_0, parsed_view(r)),
    {
        let key: [u8; 32] = match program_id {
            InstructionProgramId::Pubkey(p) => *p,
            InstructionProgramId::Base58(s) => {
                let bytes = match decode_base58(s) {
                    Ok(bytes) => bytes,
                    Err(d) => {
                        return Err(ParseInstructionDataError::ParseBase58Error(d));
                    },
                };
                match pubkey_from_bytes(&bytes) {
                    Ok(key) => key,
                    Err(e) => {
                        return Err(e);
                    },
                }
            },
        };
        match data {
            InstructionDataFormat::Binary(b) => Self::do_parse(&key, b),
            InstructionDataFormat::Base58(b) => {
                let bytes = match decode_base58(b) {
                    Ok(bytes) => bytes,
                    Err(d) => {
                        return Err(ParseInstructionDataError::ParseBase58Error(d));
                    },
                };
                Self::do_parse(&key, bytes.as_slice())
            },
        }
    }

    /// Decodes the payload of an instruction of the program with the key
    /// `program`.
    ///
    /// A transfer is read by its layout, so decoding the payload of a
    /// transfer gives back the amount that the payload was made from.
    pub fn do_parse(program: &[u8; 32], data: &[u8]) -> (r: Result<Self, ParseInstructionDataError>)
        ensures
            parsed_view(r) == decoded_payload(program@, data@),
            reads_transfers(program@, data@, parsed_view(r)),
            round_trips(program@, data@, parsed_view(r)),
    {
        let r = if same_key(program, &SYSTEM_PROGRAM_ID) {
            match system::decode_system_instruction(data) {
                Ok(sys) => Ok(Self::System(sys)),
                Err(d) => Err(ParseInstructionDataError::BincodeError(d)),
            }
        } else if same_key(program, &SPL_TOKEN_PROGRAM_ID) {
            match spl_token::unpack_token_instruction(data) {
                Ok(instruction) => Ok(ParsedInstructionData::SplToken(instruction)),
                Err(d) => Err(ParseInstructionDataError::ProgramError(d)),
            }
        } else if same_key(program, &SPL_TOKEN_2022_PROGRAM_ID) {
            match spl_token_2022::unpack_token_instruction(data) {
                Ok(instruction) => Ok(ParsedInstructionData::SplToken2022(instruction)),
                Err(d) => Err(ParseInstructionDataError::ProgramError(d)),
            }
        } else {
            Ok(ParsedInstructionData::Unknown)
        };
        proof {
            lemma_reading_round_trips(program@, data@, parsed_view(r));
        }
        r
    }
}

/// One instruction of a transaction, decoded, with the instructions that
/// it invoked.
#[derive(Debug, PartialEq)]
pub struct ParsedInstruction {
    /// The position of the program in the account index.
    pub program_id_index: u8,
    /// The positions of the accounts in the account index.
    pub accounts: Vec<u8>,
    pub instruction_data: ParsedInstructionData,
    /// The instructions that this one invoked, in the order of their
    /// invocation; `None` where none was recorded.
    pub inner_instructions: Option<Vec<ParsedInstruction>>,
}

/// An instruction with the instructions below it, as a mathematical value.
pub struct InstructionNode {
    pub program_id_index: u8,
    pub accounts: Seq<u8>,
    pub instruction_data: InstructionDataView,
    pub inner_instructions: Option<Seq<InstructionNode>>,
}

/// The view of an instruction: its own fields, and the views of the
/// instructions below it.
pub open spec fn node_view(instruction: ParsedInstruction) -> InstructionNode
    decreases instruction,
{
    InstructionNode {
        program_id_index: instruction.program_id_index,
        accounts: instruction.accounts@,
        instruction_data: instruction.instruction_data@,
        inner_instructions: match instruction.inner_instructions {
            Some(inner) => Some(nodes_view(inner@)),
            None => None,
        },
    }
}

/// The views of a sequence of instructions, in the same order.
pub open spec fn nodes_view(instructions: Seq<ParsedInstruction>) -> Seq<InstructionNode>
    decreases instructions,
{
    if instructions.len() == 0 {
        Seq::empty()
    } else {
        nodes_view(instructions.drop_last()).push(node_view(instructions.last()))
    }
}

impl View for ParsedInstruction {
    type V = InstructionNode;

    open spec fn view(&self) -> InstructionNode {
        node_view(*self)
    }
}

/// The views of a sequence are as many as the instructions, and each is the
/// view of the instruction at its position.
pub proof fn lemma_nodes_view(instructions: Seq<ParsedInstruction>)
    ensures
        nodes_view(instructions).len() == instructions.len(),
        forall|i: int|
            0 <= i < instructions.len() ==> (#[trigger] nodes_view(instructions)[i])
                == instructions[i]@,
    decreases instructions.len(),
{
    if instructions.len() > 0 {
        lemma_nodes_view(instructions.drop_last());
    }
}

/// The views of a sequence with one more instruction at its end.
pub proof fn lemma_nodes_view_push(instructions: Seq<ParsedInstruction>, last: ParsedInstruction)
    ensures
        nodes_view(instructions.push(last)) == nodes_view(instructions).push(last@),
{
    assert(instructions.push(last).drop_last() =~= instructions);
}

impl Clone for ParsedInstruction {
    /// Copies the instruction with every instruction below it.
    fn clone(&self) -> (copy: Self)
        ensures
            copy@ == self@,
        decreases self,
    {
        let inner_instructions = match &self.inner_instructions {
            Some(inner) => Some(Self::clone_all(inner.as_slice())),
            None => None,
        };
        let accounts = self.accounts.clone();
        assert(accounts@ =~= self.accounts@);
        ParsedInstruction {
            program_id_index: self.program_id_index,
            accounts,
            instruction_data: self.instruction_data.clone(),
            inner_instructions,
        }
    }
}

impl ParsedInstruction {
    /// Copies each instruction of `list` with every instruction below it.
    pub fn clone_all(list: &[ParsedInstruction]) -> (copies: Vec<ParsedInstruction>)
        ensures
            nodes_view(copies@) == nodes_view(list@),
        decreases list@,
    {
        let mut copies: Vec<ParsedInstruction> = Vec::new();
        let mut i: usize = 0;
        while i < list.len()
            invariant
                i <= list@.len(),
                nodes_view(copies@) == nodes_view(list@.take(i as int)),
            decreases list@.len() - i,
        {
            let instruction = list[i].clone();
            proof {
                lemma_nodes_view_push(copies@, instruction);
                lemma_nodes_view_push(list@.take(i as int), list@[i as int]);
                assert(list@.take(i as int).push(list@[i as int]) =~= list@.take(i + 1));
            }
            copies.push(instruction);
            i += 1;
        }
        assert(list@.take(list@.len() as int) =~= list@);
        copies
    }
}

impl InstructionNode {
    /// How many accounts a token transfer reads from the instruction: three
    /// for a transfer, four for a checked transfer, none for any other
    /// instruction.
    pub open spec fn transfer_accounts_needed(self) -> nat {
        match self.instruction_data {
            InstructionDataView::SplToken(SplTokenInstruction::Transfer { .. }) => 3,
            InstructionDataView::SplToken(SplTokenInstruction::TransferChecked { .. }) => 4,
            InstructionDataView::SplToken2022(SplToken2022Instruction::Transfer { .. }) => 3,
            InstructionDataView::SplToken2022(SplToken2022Instruction::TransferChecked { .. }) => 4,
            _ => 0,
        }
    }

    /// Whether the instruction names the accounts that a token transfer
    /// reads from it.
    pub open spec fn has_transfer_accounts(self) -> bool {
        self.accounts.len() >= self.transfer_accounts_needed()
    }

    /// Whether the instruction and every instruction below it name the
    /// accounts that a token transfer reads from them.
    pub open spec fn tree_has_transfer_accounts(self) -> bool
        decreases self,
    {
        &&& self.has_transfer_accounts()
        &&& match self.inner_instructions {
            Some(inner) => forall|i: int|
                0 <= i < inner.len() ==> (#[trigger] inner[i]).tree_has_transfer_accounts(),
            None => true,
        }
    }

    /// A transfer with the accounts at the first three positions: source,
    /// destination, signer.
    pub open spec fn basic_transfer(self, amount: u64) -> TokenTransferData {
        TokenTransferData {
            source: self.accounts[0],
            destination: self.accounts[1],
            signer: self.accounts[2],
            amount,
            mint: None,
            decimal: None,
        }
    }

    /// A checked transfer with the accounts at the first four positions:
    /// source, mint, destination, signer.
    pub open spec fn checked_transfer(self, amount: u64, decimals: u8) -> TokenTransferData {
        TokenTransferData {
            source: self.accounts[0],
            destination: self.accounts[2],
            signer: self.accounts[3],
            amount,
            mint: Some(self.accounts[1]),
            decimal: Some(decimals),
        }
    }

    /// The token transfer that the instruction is, if it is a transfer or a
    /// checked transfer of a token program.
    pub open spec fn token_transfer(self) -> Option<TokenTransferData>
        recommends
            self.has_transfer_accounts(),
    {
        match self.instruction_data {
            InstructionDataView::SplToken(SplTokenInstruction::Transfer { amount }) => Some(
                self.basic_transfer(amount),
            ),
            InstructionDataView::SplToken(
                SplTokenInstruction::TransferChecked { amount, decimals },
            ) => Some(self.checked_transfer(amount, decimals)),
            InstructionDataView::SplToken2022(SplToken2022Instruction::Transfer { amount }) => Some(
                self.basic_transfer(amount),
            ),
            InstructionDataView::SplToken2022(
                SplToken2022Instruction::TransferChecked { amount, decimals },
            ) => Some(self.checked_transfer(amount, decimals)),
            _ => None,
        }
    }
}

/// Whether every instruction of `nodes`, with all below it, names the
/// accounts that a token transfer reads from it.
pub open spec fn all_have_transfer_accounts(nodes: Seq<InstructionNode>) -> bool {
    forall|i: int| 0 <= i < nodes.len() ==> (#[trigger] nodes[i]).tree_has_transfer_accounts()
}

/// Where a tree names the accounts of its transfers, so do the trees below
/// its root.
pub proof fn lemma_inner_have_transfer_accounts(node: InstructionNode)
    requires
        node.tree_has_transfer_accounts(),
    ensures
        node.inner_instructions matches Some(inner) ==> all_have_transfer_accounts(inner),
{
}

impl ParsedInstruction {
    /// Whether the instruction names the accounts that a token transfer
    /// reads from it. The instructions below it are not looked at.
    pub fn has_transfer_accounts(&self) -> (enough: bool)
        ensures
            enough == self@.has_transfer_accounts(),
    {
        let needed: usize = match &self.instruction_data {
            ParsedInstructionData::SplToken(SplTokenInstruction::Transfer { .. }) => 3,
            ParsedInstructionData::SplToken(SplTokenInstruction::TransferChecked { .. }) => 4,
            ParsedInstructionData::SplToken2022(SplToken2022Instruction::Transfer { .. }) => 3,
            ParsedInstructionData::SplToken2022(
                SplToken2022Instruction::TransferChecked { .. },
            ) => 4,
            _ => 0,
        };
        self.accounts.len() >= needed
    }

    /// Whether the instruction and every instruction below it name the
    /// accounts that a token transfer reads from them.
    pub fn tree_has_transfer_accounts(&self) -> (enough: bool)
        ensures
            enough == self@.tree_has_transfer_accounts(),
        decreases self,
    {
        if !self.has_transfer_accounts() {
            return false;
        }
        match &self.inner_instructions {
            Some(inner) => {
                proof {
                    lemma_nodes_view(inner@);
                }
                let mut i: usize = 0;
                while i < inner.len()
                    invariant
                        i <= inner@.len(),
                        self.inner_instructions == Some(*inner),
                        self@.inner_instructions == Some(nodes_view(inner@)),
                        nodes_view(inner@).len() == inner@.len(),
                        forall|j: int|
                            0 <= j < inner@.len() ==> (#[trigger] nodes_view(inner@)[j])
                                == inner@[j]@,
                        forall|j: int|
                            0 <= j < i ==> (#[trigger] nodes_view(
                                inner@,
                            )[j]).tree_has_transfer_accounts(),
                    decreases inner@.len() - i,
                {
                    if !inner[i].tree_has_transfer_accounts() {
                        proof {
                            if self@.tree_has_transfer_accounts() {
                                lemma_inner_have_transfer_accounts(self@);
                                assert(nodes_view(inner@)[i as int].tree_has_transfer_accounts());
                            }
                        }
                        return false;
                    }
                    i += 1;
                }
                true
            },
            None => true,
        }
    }

    /// The token transfer that the instruction is, in a uniform shape:
    /// `None` unless it is a transfer or a checked transfer of a token
    /// program.
    pub fn get_token_transfer_data(&self) -> (transfer: Option<TokenTransferData>)
        requires
            self@.has_transfer_accounts(),
        ensures
            transfer == self@.token_transfer(),
    {
        match &self.instruction_data {
            ParsedInstructionData::SplToken(t) => match t {
                SplTokenInstruction::Transfer { amount } => {
                    let data = TokenTransferData {
                        source: self.accounts[0],
                        destination: self.accounts[1],
                        signer: self.accounts[2],
                        amount: *amount,
                        mint: None,
                        decimal: None,
                    };
                    Some(data)
                },
                SplTokenInstruction::TransferChecked { amount, decimals } => {
                    let data = TokenTransferData {
                        source: self.accounts[0],
                        mint: Some(self.accounts[1]),
                        destination: self.accounts[2],
                        signer: self.accounts[3],
                        amount: *amount,
                        decimal: Some(*decimals),
                    };
                    Some(data)
                },
                _ => None,
            },
            ParsedInstructionData::SplToken2022(t) => match t {
                SplToken2022Instruction::Transfer { amount } => {
                    let data = TokenTransferData {
                        source: self.accounts[0],
                        destination: self.accounts[1],
                        signer: self.accounts[2],
                        amount: *amount,
                        mint: None,
                        decimal: None,
                    };
                    Some(data)
                },
                SplToken2022Instruction::TransferChecked { amount, decimals } => {
                    let data = TokenTransferData {
                        source: self.accounts[0],
                        mint: Some(self.accounts[1]),
                        destination: self.accounts[2],
                        signer: self.accounts[3],
                        amount: *amount,
                        decimal: Some(*decimals),
                    };
                    Some(data)
                },
                _ => None,
            },
            _ => None,
        }
    }
}

/// The instruction tree of a transaction: its top-level instructions in
/// the order of the message, each with the instructions that it invoked.
#[derive(Debug, PartialEq)]
pub struct ParsedInstructionList(pub Vec<ParsedInstruction>);

impl View for ParsedInstructionList {
    type V = Seq<InstructionNode>;

    open spec fn view(&self) -> Seq<InstructionNode> {
        nodes_view(self.0@)
    }
}

impl Clone for ParsedInstructionList {
    /// Copies the tree.
    fn clone(&self) -> (copy: Self)
        ensures
            copy@ == self@,
    {
        ParsedInstructionList(ParsedInstruction::clone_all(self.0.as_slice()))
    }
}

/// The node that a compiled instruction gives against the keys of an
/// account index: none where the position of its program is past the keys.
/// A program or a payload that cannot be decoded gives a node that holds
/// the message of the error.
pub open spec fn node_of(keys: Seq<String>, compiled: CompiledInstruction) -> Option<
    InstructionNode,
> {
    if (compiled.program_id_index as int) < keys.len() {
        Some(
            InstructionNode {
                program_id_index: compiled.program_id_index,
                accounts: compiled.accounts@,
                instruction_data: match decoded_text(
                    keys[compiled.program_id_index as int]@,
                    compiled.data@,
                ) {
                    Ok(data) => data,
                    Err(e) => InstructionDataView::Error(e.message()),
                },
                inner_instructions: None,
            },
        )
    } else {
        None
    }
}

/// The nodes that the instructions of one group give, in their order. A
/// pre-parsed instruction gives none, nor does one whose program position
/// is past the keys.
pub open spec fn inner_nodes(keys: Seq<String>, instructions: Seq<InnerInstruction>) -> Seq<
    InstructionNode,
>
    decreases instructions.len(),
{
    if instructions.len() == 0 {
        Seq::empty()
    } else {
        let front = inner_nodes(keys, instructions.drop_last());
        match instructions.last() {
            InnerInstruction::Compiled(compiled) => match node_of(keys, compiled) {
                Some(node) => front.push(node),
                None => front,
            },
            InnerInstruction::Parsed => front,
        }
    }
}

/// The nodes below the top-level instruction at `position`: those of every
/// group that names the position, group after group.
pub open spec fn children_of(
    keys: Seq<String>,
    groups: Seq<InnerInstructionGroup>,
    position: int,
) -> Seq<InstructionNode>
    decreases groups.len(),
{
    if groups.len() == 0 {
        Seq::empty()
    } else {
        let front = children_of(keys, groups.drop_last(), position);
        if groups.last().index == position {
            front + inner_nodes(keys, groups.last().instructions@)
        } else {
            front
        }
    }
}

/// The node of the top-level instruction `compiled` at `position`, with
/// the nodes below it; none where the position of its program is past the
/// keys. A node with nothing below it has no sequence of inner
/// instructions.
pub open spec fn top_node(
    keys: Seq<String>,
    groups: Seq<InnerInstructionGroup>,
    compiled: CompiledInstruction,
    position: int,
) -> Option<InstructionNode> {
    match node_of(keys, compiled) {
        Some(node) => {
            let children = children_of(keys, groups, position);
            Some(
                InstructionNode {
                    inner_instructions: if children.len() > 0 {
                        Some(children)
                    } else {
                        None
                    },
                    ..node
                },
            )
        },
        None => None,
    }
}

/// The nodes of the first `count` top-level instructions, in their order,
/// without those that give none.
pub open spec fn top_nodes(
    keys: Seq<String>,
    groups: Seq<InnerInstructionGroup>,
    instructions: Seq<CompiledInstruction>,
    count: int,
) -> Seq<InstructionNode>
    decreases count,
{
    if count <= 0 {
        Seq::empty()
    } else {
        let front = top_nodes(keys, groups, instructions, count - 1);
        match top_node(keys, groups, instructions[count - 1], count - 1) {
            Some(node) => front.push(node),
            None => front,
        }
    }
}

/// The instruction tree of a record. A record that is not supported has an
/// empty tree. The account index of a supported record holds the keys of
/// the message, then the loaded writable and the loaded readonly keys.
pub open spec fn tree_of(record: TransactionRecord) -> Seq<InstructionNode> {
    if record.is_supported() {
        let raw = record.raw_message()->Some_0;
        let meta = record.meta->Some_0;
        top_nodes(
            raw.account_keys@ + meta.loaded_writable() + meta.loaded_readonly(),
            meta.inner_groups(),
            raw.instructions@,
            raw.instructions@.len() as int,
        )
    } else {
        Seq::empty()
    }
}

/// Whether nothing stands below any of `nodes`.
pub open spec fn all_leaves(nodes: Seq<InstructionNode>) -> bool {
    forall|i: int| 0 <= i < nodes.len() ==> (#[trigger] nodes[i]).inner_instructions is None
}

/// Whether the trees `nodes` have at most one level below their roots, and
/// no root has an empty sequence below it.
pub open spec fn has_one_level(nodes: Seq<InstructionNode>) -> bool {
    forall|i: int|
        0 <= i < nodes.len() ==> match (#[trigger] nodes[i]).inner_instructions {
            Some(inner) => inner.len() > 0 && all_leaves(inner),
            None => true,
        }
}

/// Nothing stands below the nodes of a group.
pub proof fn lemma_inner_nodes_are_leaves(keys: Seq<String>, instructions: Seq<InnerInstruction>)
    ensures
        all_leaves(inner_nodes(keys, instructions)),
    decreases instructions.len(),
{
    if instructions.len() > 0 {
        lemma_inner_nodes_are_leaves(keys, instructions.drop_last());
    }
}

/// Nothing stands below the nodes that are attached to a top-level
/// instruction.
pub proof fn lemma_children_are_leaves(
    keys: Seq<String>,
    groups: Seq<InnerInstructionGroup>,
    position: int,
)
    ensures
        all_leaves(children_of(keys, groups, position)),
    decreases groups.len(),
{
    if groups.len() > 0 {
        lemma_children_are_leaves(keys, groups.drop_last(), position);
        lemma_inner_nodes_are_leaves(keys, groups.last().instructions@);
    }
}

/// The top-level nodes are at most as many as the instructions they were
/// made from, and have at most one level below them.
pub proof fn lemma_top_nodes_shape(
    keys: Seq<String>,
    groups: Seq<InnerInstructionGroup>,
    instructions: Seq<CompiledInstruction>,
    count: int,
)
    ensures
        top_nodes(keys, groups, instructions, count).len() <= if count <= 0 {
            0
        } else {
            count
        },
        has_one_level(top_nodes(keys, groups, instructions, count)),
    decreases count,
{
    if count > 0 {
        lemma_top_nodes_shape(keys, groups, instructions, count - 1);
        lemma_children_are_leaves(keys, groups, count - 1);
    }
}

/// The tree of a record has at most one node for each instruction of the
/// message, and at most one level below its top-level nodes. A record
/// without a raw message, without a report of its execution or without
/// instructions has an empty tree.
pub proof fn lemma_tree_shape(record: TransactionRecord)
    ensures
        !record.is_supported() ==> tree_of(record).len() == 0,
        record.raw_message() matches Some(raw) ==> tree_of(record).len()
            <= raw.instructions@.len(),
        has_one_level(tree_of(record)),
{
    if record.is_supported() {
        let raw = record.raw_message()->Some_0;
        let meta = record.meta->Some_0;
        lemma_top_nodes_shape(
            raw.account_keys@ + meta.loaded_writable() + meta.loaded_readonly(),
            meta.inner_groups(),
            raw.instructions@,
            raw.instructions@.len() as int,
        );
    }
}

impl ParsedInstructionList {
    /// Whether every instruction of the tree names the accounts that a
    /// token transfer reads from it.
    pub fn has_transfer_accounts(&self) -> (enough: bool)
        ensures
            enough == all_have_transfer_accounts(self@),
    {
        proof {
            lemma_nodes_view(self.0@);
        }
        let mut i: usize = 0;
        while i < self.0.len()
            invariant
                i <= self.0@.len(),
                self@.len() == self.0@.len(),
                forall|j: int| 0 <= j < self.0@.len() ==> (#[trigger] self@[j]) == self.0@[j]@,
                forall|j: int| 0 <= j < i ==> (#[trigger] self@[j]).tree_has_transfer_accounts(),
            decreases self.0@.len() - i,
        {
            if !self.0[i].tree_has_transfer_accounts() {
                assert(!self@[i as int].tree_has_transfer_accounts());
                return false;
            }
            i += 1;
        }
        true
    }

    /// The top-level instructions.
    pub fn as_slice(&self) -> (instructions: &[ParsedInstruction])
        ensures
            instructions@ == self.0@,
    {
        self.0.as_slice()
    }

    /// Decodes one compiled instruction against an account index.
    pub fn parse_ui_compiled_instruction(
        transaction_accounts: &TransactionAccounts<String>,
        compiled: &CompiledInstruction,
    ) -> (parsed: Option<ParsedInstruction>)
        ensures
            match parsed {
                Some(instruction) => node_of(transaction_accounts@, *compiled) == Some(
                    instruction@,
                ),
                None => node_of(transaction_accounts@, *compiled) is None,
            },
    {
        if let Some(program) = transaction_accounts.get(compiled.program_id_index as usize) {
            match ParsedInstructionData::parse(
                InstructionProgramId::Base58(program.as_str()),
                InstructionDataFormat::Base58(compiled.data.as_str()),
            ) {
                Ok(parsed) => Some(
                    ParsedInstruction {
                        program_id_index: compiled.program_id_index,
                        accounts: compiled.accounts.clone(),
                        instruction_data: parsed,
                        inner_instructions: None,
                    },
                ),
                Err(e) => Some(
                    ParsedInstruction {
                        program_id_index: compiled.program_id_index,
                        accounts: compiled.accounts.clone(),
                        instruction_data: ParsedInstructionData::Error(e.to_string()),
                        inner_instructions: None,
                    },
                ),
            }
        } else {
            None
        }
    }

    /// Decodes the instructions of one group, in their order, and appends
    /// them to `children`.
    fn push_inner(
        transaction_accounts: &TransactionAccounts<String>,
        instructions: &Vec<InnerInstruction>,
        children: &mut Vec<ParsedInstruction>,
    )
        ensures
            nodes_view(final(children)@) == nodes_view(old(children)@) + inner_nodes(
                transaction_accounts@,
                instructions@,
            ),
    {
        let ghost keys = transaction_accounts@;
        let mut j: usize = 0;
        while j < instructions.len()
            invariant
                j <= instructions@.len(),
                keys == transaction_accounts@,
                nodes_view(children@) == nodes_view(old(children)@) + inner_nodes(
                    keys,
                    instructions@.take(j as int),
                ),
            decreases instructions@.len() - j,
        {
            let ghost before = children@;
            proof {
                assert(instructions@.take(j + 1).drop_last() =~= instructions@.take(j as int));
            }
            match &instructions[j] {
                InnerInstruction::Compiled(inner_instruction) => {
                    if let Some(parsed) = Self::parse_ui_compiled_instruction(
                        transaction_accounts,
                        inner_instruction,
                    ) {
                        proof {
                            lemma_nodes_view_push(before, parsed);
                        }
                        children.push(parsed);
                    }
                },
                InnerInstruction::Parsed => {},
            }
            j += 1;
        }
        assert(instructions@.take(instructions@.len() as int) =~= instructions@);
    }

    /// Decodes the instructions below the top-level instruction at
    /// `position`: those of every group that names the position.
    fn collect_inner(
        transaction_accounts: &TransactionAccounts<String>,
        groups: &Vec<InnerInstructionGroup>,
        position: usize,
    ) -> (children: Vec<ParsedInstruction>)
        ensures
            nodes_view(children@) == children_of(transaction_accounts@, groups@, position as int),
    {
        let ghost keys = transaction_accounts@;
        let mut children: Vec<ParsedInstruction> = Vec::new();
        let mut g: usize = 0;
        while g < groups.len()
            invariant
                g <= groups@.len(),
                keys == transaction_accounts@,
                nodes_view(children@) == children_of(keys, groups@.take(g as int), position as int),
            decreases groups@.len() - g,
        {
            proof {
                assert(groups@.take(g + 1).drop_last() =~= groups@.take(g as int));
            }
            let group = &groups[g];
            if group.index as usize == position {
                Self::push_inner(transaction_accounts, &group.instructions, &mut children);
            }
            g += 1;
        }
        assert(groups@.take(groups@.len() as int) =~= groups@);
        children
    }
}

impl std::ops::Deref for ParsedInstructionList {
    type Target = [ParsedInstruction];

    fn deref(&self) -> (instructions: &[ParsedInstruction])
        ensures
            instructions@ == self.0@,
    {
        self.0.as_slice()
    }
}

impl From<&TransactionRecord> for ParsedInstructionList {
    /// Builds the instruction tree of a record.
    ///
    /// A record without a raw message or without the report of its
    /// execution gives an empty tree. Below a top-level instruction stand
    /// the instructions of the groups that name its position; nothing
    /// stands below those.
    fn from(value: &TransactionRecord) -> (list: Self)
        ensures
            list@ == tree_of(*value),
            !value.is_supported() ==> list@.len() == 0,
            value.raw_message() matches Some(raw) ==> list@.len() <= raw.instructions@.len(),
            has_one_level(list@),
    {
        proof {
            lemma_tree_shape(*value);
        }
        let message = match &value.transaction {
            EncodedTransaction::Json(t) => match &t.message {
                Message::Parsed => {
                    return ParsedInstructionList(Vec::new());
                },
                Message::Raw(raw) => raw,
            },
            EncodedTransaction::LegacyBinary => {
                return ParsedInstructionList(Vec::new());
            },
            EncodedTransaction::Binary => {
                return ParsedInstructionList(Vec::new());
            },
            EncodedTransaction::Accounts => {
                return ParsedInstructionList(Vec::new());
            },
        };
        let meta = if let Some(meta) = &value.meta {
            meta
        } else {
            return ParsedInstructionList(Vec::new());
        };
        let mut writable: Option<&[String]> = None;
        let mut readonly: Option<&[String]> = None;
        if let Some(loaded) = &meta.loaded_addresses {
            writable = Some(loaded.writable.as_slice());
            readonly = Some(loaded.readonly.as_slice());
        }
        let transaction_accounts = TransactionAccounts::from_accounts(
            Some(message.account_keys.as_slice()),
            writable,
            readonly,
        );
        let raw_instructions = &message.instructions;
        let ghost keys = transaction_accounts@;
        let ghost groups = meta.inner_groups();
        let mut instructions: Vec<ParsedInstruction> = Vec::new();
        let mut position: usize = 0;
        while position < raw_instructions.len()
            invariant
                position <= raw_instructions@.len(),
                keys == transaction_accounts@,
                groups == meta.inner_groups(),
                nodes_view(instructions@) == top_nodes(
                    keys,
                    groups,
                    raw_instructions@,
                    position as int,
                ),
            decreases raw_instructions@.len() - position,
        {
            if let Some(mut parsed) = Self::parse_ui_compiled_instruction(
                &transaction_accounts,
                &raw_instructions[position],
            ) {
                if let Some(inner) = &meta.inner_instructions {
                    let children = Self::collect_inner(&transaction_accounts, inner, position);
                    if children.len() > 0 {
                        proof {
                            lemma_nodes_view(children@);
                        }
                        parsed.inner_instructions = Some(children);
                    }
                }
                proof {
                    lemma_nodes_view_push(instructions@, parsed);
                }
                instructions.push(parsed);
            }
            position += 1;
        }
        ParsedInstructionList(instructions)
    }
}

/// A list has no counterpart that ghost code could write down, so the
/// conversion is described by the contract of `from` and by `tree_of`.
impl vstd::std_specs::convert::FromSpecImpl<&TransactionRecord> for ParsedInstructionList {
    open spec fn obeys_from_spec() -> bool {
        false
    }

    open spec fn from_spec(v: &TransactionRecord) -> Self {
        arbitrary()
    }
}

} // verus!
