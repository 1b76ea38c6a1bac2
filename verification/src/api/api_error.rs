//! Why a request to the transaction service failed.
use vstd::prelude::*;

verus! {

/// An error of the HTTP client. The library hands such a value on and never
/// looks inside it.
#[verifier::external_type_specification]
#[verifier::external_body]
pub struct ExReqwestError(reqwest::Error);

/// Why a request to the transaction service failed.
#[derive(Debug)]
pub enum ApiError {
    /// The client was used before it was set up.
    ClientNotInitialized,
    /// The request could not be sent, or its answer could not be read.
    Reqwest(reqwest::Error),
    /// The service answered that it could not do what was asked; the text
    /// is what it said.
    LogicError(String),
}

} // verus!
