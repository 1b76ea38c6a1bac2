//! Requests for transaction records, and the shape they are answered in.
use crate::transaction::TransactionRecord;
use vstd::prelude::*;

verus! {

/// Asks for the transaction with a signature.
#[derive(Debug, Clone)]
pub struct FetchTransactionParam {
    pub signature: String,
}

/// Asks for the transactions around the one with a signature: as many
/// before it and after it as `backward` and `forward` say.
#[derive(Debug, Clone)]
pub struct FetchTransactionsNearByParam {
    pub signature: String,
    pub backward: Option<u32>,
    pub forward: Option<u32>,
}

/// The transactions of one block.
#[derive(Debug)]
pub struct BlockTransaction {
    pub slot: u64,
    pub block_time: Option<i64>,
    pub block_height: Option<u64>,
    pub transactions: Option<Vec<TransactionRecord>>,
}

} // verus!
