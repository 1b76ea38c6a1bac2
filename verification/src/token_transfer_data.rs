//! The uniform shape of a token transfer.
use vstd::prelude::*;

verus! {

/// A token transfer, with its accounts given as positions in the
/// transaction's account index.
#[derive(Debug, Clone, Copy, PartialEq, Eq)]
pub struct TokenTransferData {
    pub source: u8,
    pub destination: u8,
    pub signer: u8,
    pub amount: u64,
    /// Present for a checked transfer only.
    pub mint: Option<u8>,
    /// Present for a checked transfer only.
    pub decimal: Option<u8>,
}

} // verus!
