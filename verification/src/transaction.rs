//! A transaction record as the tree builder and the filters consume it: the
//! message in one of its representations, and what executing it reported.
use vstd::prelude::*;

pub mod transaction_filter;

verus! {

/// Why the runtime rejected a transaction. The library hands such a value
/// on and never looks inside it.
#[verifier::external_type_specification]
#[verifier::external_body]
pub struct ExTransactionError(solana_transaction_error::TransactionError);

/// One instruction as a message holds it: the program and the accounts are
/// positions in the account index, the payload is Base58 text.
#[derive(Debug, Clone, PartialEq, Eq)]
pub struct CompiledInstruction {
    pub program_id_index: u8,
    pub accounts: Vec<u8>,
    pub data: String,
}

/// An instruction that another instruction invoked.
#[derive(Debug, Clone, PartialEq, Eq)]
pub enum InnerInstruction {
    /// The instruction in compiled form.
    Compiled(CompiledInstruction),
    /// The instruction in a pre-parsed form, which is not decoded.
    Parsed,
}

/// The instructions that the top-level instruction at `index` invoked, in
/// the order of their invocation.
#[derive(Debug, Clone, PartialEq, Eq)]
pub struct InnerInstructionGroup {
    pub index: u8,
    pub instructions: Vec<InnerInstruction>,
}

/// The keys that address lookup tables added to those of the message.
#[derive(Debug, Clone, PartialEq, Eq)]
pub struct LoadedAddresses {
    pub writable: Vec<String>,
    pub readonly: Vec<String>,
}

/// A message in its structured, unparsed representation.
#[derive(Debug, Clone, PartialEq, Eq)]
pub struct RawMessage {
    pub account_keys: Vec<String>,
    pub instructions: Vec<CompiledInstruction>,
}

/// The message of a structured transaction.
#[derive(Debug, Clone, PartialEq, Eq)]
pub enum Message {
    /// Pre-parsed: not supported.
    Parsed,
    /// Structured and unparsed.
    Raw(RawMessage),
}

/// A structured transaction: its signatures and its message.
#[derive(Debug, Clone, PartialEq, Eq)]
pub struct StructuredTransaction {
    pub signatures: Vec<String>,
    pub message: Message,
}

/// A transaction in the representation it was delivered in. Only a
/// structured transaction with a raw message is decoded.
#[derive(Debug, Clone, PartialEq, Eq)]
pub enum EncodedTransaction {
    LegacyBinary,
    Binary,
    Json(StructuredTransaction),
    Accounts,
}

/// What executing a transaction reported.
#[derive(Debug)]
pub struct ExecutionMeta {
    pub err: Option<solana_transaction_error::TransactionError>,
    pub status: Result<(), solana_transaction_error::TransactionError>,
    pub fee: u64,
    pub pre_balances: Vec<u64>,
    pub post_balances: Vec<u64>,
    pub inner_instructions: Option<Vec<InnerInstructionGroup>>,
    pub log_messages: Option<Vec<String>>,
    pub loaded_addresses: Option<LoadedAddresses>,
    pub compute_units_consumed: Option<u64>,
}

/// A transaction with what its execution reported, if that is known.
#[derive(Debug)]
pub struct TransactionRecord {
    pub transaction: EncodedTransaction,
    pub meta: Option<ExecutionMeta>,
}

impl TransactionRecord {
    /// The raw message of the record, if it has one.
    pub open spec fn raw_message(&self) -> Option<RawMessage> {
        match self.transaction {
            EncodedTransaction::Json(t) => match t.message {
                Message::Raw(raw) => Some(raw),
                Message::Parsed => None,
            },
            _ => None,
        }
    }

    /// Whether the record can be decoded: it holds a raw message and the
    /// report of its execution.
    pub open spec fn is_supported(&self) -> bool {
        self.raw_message() is Some && self.meta is Some
    }
}

impl ExecutionMeta {
    /// The loaded writable keys; none where no loaded keys were reported.
    pub open spec fn loaded_writable(&self) -> Seq<String> {
        match self.loaded_addresses {
            Some(loaded) => loaded.writable@,
            None => Seq::empty(),
        }
    }

    /// The loaded readonly keys; none where no loaded keys were reported.
    pub open spec fn loaded_readonly(&self) -> Seq<String> {
        match self.loaded_addresses {
            Some(loaded) => loaded.readonly@,
            None => Seq::empty(),
        }
    }

    /// The groups of inner instructions; none where none were reported.
    pub open spec fn inner_groups(&self) -> Seq<InnerInstructionGroup> {
        match self.inner_instructions {
            Some(groups) => groups@,
            None => Seq::empty(),
        }
    }
}

} // verus!
