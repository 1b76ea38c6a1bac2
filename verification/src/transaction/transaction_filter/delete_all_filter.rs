//! The filter that rejects every transaction.
use crate::transaction::transaction_filter::{
    TransactionFilter, TransactionFilterContext, TransactionProps, TransactionPropsProvider,
};
use vstd::prelude::*;

verus! {

/// Rejects every transaction.
pub struct DeleteAllFilter;

impl TransactionFilter for DeleteAllFilter {
    type ContextType = TransactionFilterContext;

    open spec fn accepts(&self, props: TransactionProps) -> bool {
        false
    }

    fn filter(&self, _obj: &dyn TransactionPropsProvider, _context: &mut Self::ContextType) -> (accepted: bool)
        ensures
            *final(_context) == *old(_context),
    {
        false
    }
}

} // verus!
