use crate::errors::{AppError, AppResult, ErrorView, Kind};
use vstd::prelude::*;

verus! {

/// What a Lambda function answers when it fails.
pub struct ErrorResponse {
    pub error_message: String,
}

/// What the synchronous task function is given.
pub struct SyncTaskPayload {
    pub name: String,
}

/// What the synchronous task function answers.
pub struct SyncTaskResponse {
    pub name: String,
}

impl ErrorResponse {
    /// A function's failure is an internal error with the function's message.
    pub fn into_error(self) -> (r: AppError)
        ensures
            r@ == (ErrorView { kind: Kind::Internal, msg: Some(self.error_message@), src: None }),
    {
        Kind::Internal.with(self.error_message)
    }
}

/// The outcome of invoking a function, from what its answer reads as: an
/// error answer is the function's failure (see `into_error`); otherwise the
/// answer read as output, where a failure to read it is an internal error
/// caused by the reader's error.
pub fn invoke_result<T>(error: Option<ErrorResponse>, output: Result<T, String>) -> (r: AppResult<T>)
    ensures
        match error {
            Some(e) => r matches Err(x) && x@ == (ErrorView {
                kind: Kind::Internal,
                msg: Some(e.error_message@),
                src: None,
            }),
            None => match output {
                Ok(v) => r == Ok::<T, AppError>(v),
                Err(t) => r matches Err(x) && x@ == (ErrorView {
                    kind: Kind::Internal,
                    msg: None,
                    src: Some(t@),
                }),
            },
        },
{
    match error {
        Some(e) => Err(e.into_error()),
        None => match output {
            Ok(v) => Ok(v),
            Err(t) => Err(Kind::Internal.from_src(t)),
        },
    }
}

} // verus!
