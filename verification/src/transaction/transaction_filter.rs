//! Filters over transactions: each accepts or rejects a transaction by what
//! a provider exposes of it.
use crate::parsed_instruction::{nodes_view, InstructionNode, ParsedInstruction};
use crate::utils::{segment, TransactionAccounts};
use std::any::TypeId;
use vstd::prelude::*;

pub mod account_filter;
pub mod circle_swap_filter;
pub mod delete_all_filter;
pub mod signature_filter;
pub mod status_filter;

verus! {

/// The identifier that the compiler gives a type. The library hands such a
/// value on and never looks inside it.
#[verifier::external_type_specification]
#[verifier::external_body]
pub struct ExTypeId(TypeId);

/// `TypeId::of`. Nothing is stated of the identifier that it returns.
pub assume_specification<T: ?Sized + 'static>[ TypeId::of::<T> ]() -> TypeId;

/// What a filter may keep during one evaluation of one transaction.
#[derive(Default)]
pub struct TransactionFilterContext {}

/// What executing a transaction reported, borrowed from the record.
#[derive(Clone, Copy)]
pub struct TransactionMeta<'a> {
    pub err: Option<&'a solana_transaction_error::TransactionError>,
    pub status: &'a solana_transaction_error::TransactionResult<()>,
    pub fee: u64,
    pub pre_balances: &'a [u64],
    pub post_balances: &'a [u64],
    pub log_messages: Option<&'a [String]>,
    pub compute_units_consumed: Option<u64>,
}

/// What a provider exposes of a transaction, as far as the filters read it.
pub struct TransactionProps {
    /// The keys of the account index, by position.
    pub accounts: Seq<String>,
    /// The signatures, where the transaction came in a form that has them.
    pub signatures: Option<Seq<String>>,
    /// The instruction tree, where there is one.
    pub parsed_instructions: Option<Seq<InstructionNode>>,
    /// Whether the execution succeeded, where its report is known.
    pub succeeded: Option<bool>,
}

/// A read-only view of one transaction.
pub trait TransactionPropsProvider {
    /// What the provider exposes. Each method below returns its part of it.
    spec fn props(&self) -> TransactionProps;

    /// The account index of the transaction.
    fn get_accounts(&self) -> (accounts: TransactionAccounts<'_, String>)
        ensures
            accounts@ == self.props().accounts,
    ;

    /// The signatures of the transaction; `None` where it came in a form
    /// that does not show them.
    fn get_signatures(&self) -> (signatures: Option<&[String]>)
        ensures
            match signatures {
                Some(s) => self.props().signatures == Some(s@),
                None => self.props().signatures is None,
            },
    ;

    /// The top-level instructions of the instruction tree.
    fn get_parsed_instructions(&self) -> (instructions: Option<&[ParsedInstruction]>)
        ensures
            match instructions {
                Some(list) => self.props().parsed_instructions == Some(nodes_view(list@)),
                None => self.props().parsed_instructions is None,
            },
    ;

    /// What executing the transaction reported.
    fn get_meta(&self) -> (meta: Option<TransactionMeta<'_>>)
        ensures
            match meta {
                Some(m) => self.props().succeeded == Some(m.status is Ok),
                None => self.props().succeeded is None,
            },
    ;
}

/// A transaction as its parts: the provider that exposes what it holds.
pub struct TransactionView<'a> {
    /// The static keys of the account index.
    pub account_keys: Option<&'a [String]>,
    /// The loaded writable keys of the account index.
    pub loaded_writable_accounts: Option<&'a [String]>,
    /// The loaded readonly keys of the account index.
    pub loaded_readonly_accounts: Option<&'a [String]>,
    pub signatures: Option<&'a [String]>,
    pub parsed_instructions: Option<&'a [ParsedInstruction]>,
    pub meta: Option<TransactionMeta<'a>>,
}

impl<'a> TransactionPropsProvider for TransactionView<'a> {
    open spec fn props(&self) -> TransactionProps {
        TransactionProps {
            accounts: segment(self.account_keys) + segment(self.loaded_writable_accounts) + segment(
                self.loaded_readonly_accounts,
            ),
            signatures: match self.signatures {
                Some(s) => Some(s@),
                None => None,
            },
            parsed_instructions: match self.parsed_instructions {
                Some(list) => Some(nodes_view(list@)),
                None => None,
            },
            succeeded: match self.meta {
                Some(m) => Some(m.status is Ok),
                None => None,
            },
        }
    }

    fn get_accounts(&self) -> (accounts: TransactionAccounts<'_, String>) {
        TransactionAccounts::from_accounts(
            self.account_keys,
            self.loaded_writable_accounts,
            self.loaded_readonly_accounts,
        )
    }

    fn get_signatures(&self) -> (signatures: Option<&[String]>) {
        self.signatures
    }

    fn get_parsed_instructions(&self) -> (instructions: Option<&[ParsedInstruction]>) {
        self.parsed_instructions
    }

    fn get_meta(&self) -> (meta: Option<TransactionMeta<'_>>) {
        self.meta
    }
}

/// A predicate over transactions.
pub trait TransactionFilter: Send + Sync + 'static {
    type ContextType;

    /// The transactions that the filter can be asked about: all of them,
    /// unless the filter says otherwise.
    open spec fn admits(&self, props: TransactionProps) -> bool {
        true
    }

    /// The transactions that the filter accepts.
    spec fn accepts(&self, props: TransactionProps) -> bool;

    /// Whether the filter accepts the transaction.
    fn filter(&self, obj: &dyn TransactionPropsProvider, context: &mut Self::ContextType) -> (accepted:
        bool)
        requires
            self.admits(obj.props()),
        ensures
            accepted == self.accepts(obj.props()),
    ;

    /// The identifier of the filter's type: what `TypeId::of` gives for the
    /// type, whatever the filter holds.
    fn id(&self) -> (identifier: TypeId)
        ensures
            call_ensures(TypeId::of::<Self>, (), identifier),
    {
        TypeId::of::<Self>()
    }
}

} // verus!
