//! The common shape of an answer.

use vstd::prelude::*;

verus! {

/// An answer in the common shape: what was asked for, or what went wrong.
#[derive(Debug)]
pub struct ApiResponse<T> {
    pub success: bool,
    pub data: Option<T>,
    pub error: Option<String>,
    pub code: Option<String>,
}

impl<T> ApiResponse<T> {
    /// The answer that holds what was asked for.
    pub fn success(data: T) -> (r: Self)
        ensures
            r.success,
            r.data == Some(data),
            r.error is None,
            r.code is None,
    {
        ApiResponse { success: true, data: Some(data), error: None, code: None }
    }

    /// The answer that says what went wrong, with a code for machines where there is one.
    pub fn error(message: String, code: Option<String>) -> (r: ApiResponse<()>)
        ensures
            !r.success,
            r.data is None,
            r.error == Some(message),
            r.code == code,
    {
        ApiResponse { success: false, data: None, error: Some(message), code }
    }
}

} // verus!
