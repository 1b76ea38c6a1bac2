//! Filters by the outcome of a transaction.
use crate::transaction::transaction_filter::{
    TransactionFilter, TransactionFilterContext, TransactionMeta, TransactionProps,
    TransactionPropsProvider,
};
use vstd::prelude::*;

verus! {

/// Accepts a transaction whose execution ended as the filter asks. A
/// transaction without a report of its execution is rejected.
pub struct TransactionStatusFilter {
    is_success: bool,
}

/// Whether the report `meta` says that the execution succeeded; `None`
/// where there is no report.
pub open spec fn outcome(meta: Option<TransactionMeta>) -> Option<bool> {
    match meta {
        Some(m) => Some(m.status is Ok),
        None => None,
    }
}

impl TransactionStatusFilter {
    /// Whether the filter asks for transactions that succeeded.
    pub closed spec fn wants_success(&self) -> bool {
        self.is_success
    }

    /// The filter that accepts the transactions that succeeded.
    pub fn success() -> (filter: Self)
        ensures
            filter.wants_success(),
    {
        Self { is_success: true }
    }

    /// The filter that accepts the transactions that failed.
    pub fn fail() -> (filter: Self)
        ensures
            !filter.wants_success(),
    {
        Self { is_success: false }
    }

    /// Whether the filter accepts a transaction with the outcome
    /// `succeeded`.
    pub open spec fn accepts_outcome(&self, succeeded: Option<bool>) -> bool {
        match succeeded {
            Some(ok) => ok == self.wants_success(),
            None => false,
        }
    }

    /// Whether the filter accepts a transaction with the report `meta`.
    pub fn filter_meta(&self, meta: Option<TransactionMeta>) -> (accepted: bool)
        ensures
            accepted == self.accepts_outcome(outcome(meta)),
    {
        if let Some(meta) = meta {
            meta.status.is_ok() == self.is_success
        } else {
            false
        }
    }
}

/// Where the outcome is known, a filter for successes and a filter for
/// failures never accept the same transaction, and one of them accepts it.
/// Where it is not known, both reject.
pub proof fn lemma_success_and_fail(
    success: TransactionStatusFilter,
    fail: TransactionStatusFilter,
    succeeded: Option<bool>,
)
    requires
        success.wants_success(),
        !fail.wants_success(),
    ensures
        succeeded is Some ==> success.accepts_outcome(succeeded) != fail.accepts_outcome(succeeded),
        succeeded is None ==> !success.accepts_outcome(succeeded) && !fail.accepts_outcome(
            succeeded,
        ),
{
}

impl TransactionFilter for TransactionStatusFilter {
    type ContextType = TransactionFilterContext;

    open spec fn accepts(&self, props: TransactionProps) -> bool {
        self.accepts_outcome(props.succeeded)
    }

    fn filter(&self, obj: &dyn TransactionPropsProvider, _context: &mut Self::ContextType) -> (accepted:
        bool)
        ensures
            *final(_context) == *old(_context),
    {
        let meta = obj.get_meta();
        self.filter_meta(meta)
    }
}

} // verus!
