//! Filters by the signatures of a transaction.
use crate::transaction::transaction_filter::{
    TransactionFilter, TransactionFilterContext, TransactionProps, TransactionPropsProvider,
};
use crate::utils::{holds_key, TransactionAccounts};
use vstd::prelude::*;

verus! {

/// Accepts a transaction by its signatures. A transaction whose signatures
/// are not known is accepted.
#[derive(Debug)]
pub enum SignatureFilter {
    /// Accepts a transaction with a listed signature.
    Include(Vec<String>),
    /// Accepts a transaction without any listed signature.
    Exclude(Vec<String>),
}

/// Whether one of `signatures` is one of `listed`.
pub open spec fn any_listed(signatures: Seq<String>, listed: Seq<String>) -> bool {
    exists|i: int| 0 <= i < signatures.len() && holds_key(listed, (#[trigger] signatures[i])@)
}

/// The view of signatures that may be unknown.
pub open spec fn signatures_view(signatures: Option<&[String]>) -> Option<Seq<String>> {
    match signatures {
        Some(s) => Some(s@),
        None => None,
    }
}

impl SignatureFilter {
    /// Whether the filter accepts a transaction with the signatures
    /// `signatures`.
    pub open spec fn accepts_signatures(&self, signatures: Option<Seq<String>>) -> bool {
        match self {
            SignatureFilter::Include(listed) => match signatures {
                Some(s) => any_listed(s, listed@),
                None => true,
            },
            SignatureFilter::Exclude(listed) => match signatures {
                Some(s) => !any_listed(s, listed@),
                None => true,
            },
        }
    }

    /// Whether the filter accepts a transaction with the signatures
    /// `signatures`.
    pub fn filter_signatures(&self, signatures: Option<&[String]>) -> (accepted: bool)
        ensures
            accepted == self.accepts_signatures(signatures_view(signatures)),
    {
        match self {
            SignatureFilter::Include(including_signatures) => match signatures {
                Some(s) => Self::any_signature_listed(s, including_signatures),
                None => true,
            },
            SignatureFilter::Exclude(excluding_signatures) => match signatures {
                Some(s) => !Self::any_signature_listed(s, excluding_signatures),
                None => true,
            },
        }
    }

    /// Whether one of `signatures` is one of `listed`.
    fn any_signature_listed(signatures: &[String], listed: &Vec<String>) -> (found: bool)
        ensures
            found == any_listed(signatures@, listed@),
    {
        let mut i: usize = 0;
        while i < signatures.len()
            invariant
                i <= signatures@.len(),
                forall|j: int| 0 <= j < i ==> !holds_key(listed@, (#[trigger] signatures@[j])@),
            decreases signatures@.len() - i,
        {
            if TransactionAccounts::<String>::slice_contains(listed.as_slice(), &signatures[i]) {
                return true;
            }
            i += 1;
        }
        false
    }
}

/// On signatures that are known, including a list accepts exactly the
/// transactions that excluding the list rejects. Both accept a transaction
/// whose signatures are not known.
pub proof fn lemma_include_and_exclude(listed: Vec<String>, signatures: Option<Seq<String>>)
    ensures
        signatures is Some ==> SignatureFilter::Include(listed).accepts_signatures(signatures)
            != SignatureFilter::Exclude(listed).accepts_signatures(signatures),
        signatures is None ==> SignatureFilter::Include(listed).accepts_signatures(signatures)
            && SignatureFilter::Exclude(listed).accepts_signatures(signatures),
{
}

impl TransactionFilter for SignatureFilter {
    type ContextType = TransactionFilterContext;

    open spec fn accepts(&self, props: TransactionProps) -> bool {
        self.accepts_signatures(props.signatures)
    }

    fn filter(&self, obj: &dyn TransactionPropsProvider, _context: &mut Self::ContextType) -> (accepted:
        bool)
        ensures
            *final(_context) == *old(_context),
    {
        let signatures = obj.get_signatures();
        self.filter_signatures(signatures)
    }
}

} // verus!
