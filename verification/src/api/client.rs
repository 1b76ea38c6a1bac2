//! What an answer of the transaction service amounts to.
use crate::api::api_error::ApiError;
use vstd::prelude::*;

verus! {

/// What the service is taken to have said where it reports a failure
/// without a message.
pub open spec fn unknown_error() -> Seq<char> {
    "未知错误"@
}

/// The text of the failure that the service reported.
pub open spec fn failure_text(message: Option<String>) -> Seq<char> {
    match message {
        Some(text) => text@,
        None => unknown_error(),
    }
}

/// What an answer of the service amounts to: its data where the service
/// reports success, else a `LogicError` with the message of the answer.
pub fn answer_of<T>(success: bool, data: Option<T>, message: Option<String>) -> (r: Result<
    Option<T>,
    ApiError,
>)
    ensures
        success ==> r == Ok::<Option<T>, ApiError>(data),
        !success ==> (r matches Err(ApiError::LogicError(text)) && text@ == failure_text(message)),
{
    if success {
        Ok(data)
    } else {
        if let Some(err) = message {
            Err(ApiError::LogicError(err))
        } else {
            Err(ApiError::LogicError(String::from_str("未知错误")))
        }
    }
}

} // verus!
