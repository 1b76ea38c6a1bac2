//! Filters by the accounts of a transaction.
use crate::transaction::transaction_filter::{
    TransactionFilter, TransactionFilterContext, TransactionProps, TransactionPropsProvider,
};
use crate::utils::{holds_key, TransactionAccounts};
use vstd::prelude::*;

verus! {

/// Accepts a transaction by the keys of its account index.
pub enum AccountFilter {
    /// Accepts a transaction that has every listed account.
    Include(Vec<String>),
    /// Accepts a transaction that has none of the listed accounts.
    Exclude(Vec<String>),
}

impl AccountFilter {
    /// The filter that accepts a transaction that has every one of
    /// `accounts`.
    pub fn including(accounts: Vec<String>) -> (filter: Self)
        ensures
            filter == AccountFilter::Include(accounts),
    {
        Self::Include(accounts)
    }

    /// The filter that accepts a transaction that has none of `accounts`.
    pub fn exclude(accounts: Vec<String>) -> (filter: Self)
        ensures
            filter == AccountFilter::Exclude(accounts),
    {
        Self::Exclude(accounts)
    }

    /// Whether the filter accepts a transaction with the keys `keys`.
    pub open spec fn accepts_accounts(&self, keys: Seq<String>) -> bool {
        match self {
            AccountFilter::Include(listed) => forall|i: int|
                0 <= i < listed@.len() ==> holds_key(keys, (#[trigger] listed@[i])@),
            AccountFilter::Exclude(listed) => forall|i: int|
                0 <= i < listed@.len() ==> !holds_key(keys, (#[trigger] listed@[i])@),
        }
    }

    /// Whether the filter accepts a transaction with the account index
    /// `transaction_accounts`.
    pub fn filter_accounts(&self, transaction_accounts: &TransactionAccounts<String>) -> (accepted:
        bool)
        ensures
            accepted == self.accepts_accounts(transaction_accounts@),
    {
        let (listed, wanted) = match self {
            AccountFilter::Include(accounts) => (accounts, true),
            AccountFilter::Exclude(accounts) => (accounts, false),
        };
        let mut i: usize = 0;
        while i < listed.len()
            invariant
                i <= listed@.len(),
                wanted ==> *self == AccountFilter::Include(*listed),
                !wanted ==> *self == AccountFilter::Exclude(*listed),
                forall|j: int|
                    0 <= j < i ==> holds_key(transaction_accounts@, (#[trigger] listed@[j])@)
                        == wanted,
            decreases listed@.len() - i,
        {
            let found = transaction_accounts.contains(&listed[i]);
            proof {
                transaction_accounts.lemma_holds_iff_listed(listed@[i as int]@);
            }
            if found != wanted {
                assert(listed@[i as int] == match self {
                    AccountFilter::Include(l) => l@[i as int],
                    AccountFilter::Exclude(l) => l@[i as int],
                });
                return false;
            }
            i += 1;
        }
        true
    }
}

impl TransactionFilter for AccountFilter {
    type ContextType = TransactionFilterContext;

    open spec fn accepts(&self, props: TransactionProps) -> bool {
        self.accepts_accounts(props.accounts)
    }

    fn filter(&self, obj: &dyn TransactionPropsProvider, _context: &mut Self::ContextType) -> (accepted:
        bool)
        ensures
            *final(_context) == *old(_context),
    {
        let transaction_accounts = obj.get_accounts();
        self.filter_accounts(&transaction_accounts)
    }
}

} // verus!
