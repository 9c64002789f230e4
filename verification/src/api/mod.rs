//! What the service answers to its callers. The functions here take what a request
//! held, as plain values, and give what the answer is to hold; reading requests and
//! writing answers is done elsewhere.

pub mod data_sources;
pub mod documents;
pub mod github;
pub mod github_app;
pub mod health;
pub mod local_sync;
pub mod repositories;
pub mod response;

use vstd::prelude::*;
use crate::error::AppError;
use crate::error::ErrorKind;
use crate::error::Failure;

verus! {

/// The failure that answers a caller who has not said who they are.
pub open spec fn unauthorized() -> Failure {
    Failure { kind: ErrorKind::Unauthorized, message: "Missing or invalid authorization"@ }
}

/// A malformed request, with the given message.
pub open spec fn bad_request(message: Seq<char>) -> Failure {
    Failure { kind: ErrorKind::BadRequest, message }
}

/// Something that does not exist, with the given message.
pub open spec fn not_found(message: Seq<char>) -> Failure {
    Failure { kind: ErrorKind::NotFound, message }
}

/// Something that the caller may not do, with the given message.
pub open spec fn forbidden(message: Seq<char>) -> Failure {
    Failure { kind: ErrorKind::Forbidden, message }
}

/// The user that a request comes from; a request that names none is not authorized.
pub fn authorized(user: Option<u128>) -> (r: Result<u128, AppError>)
    ensures
        match user {
            Some(id) => r == Ok::<u128, AppError>(id),
            None => r is Err && r->Err_0@ == unauthorized(),
        },
{
    match user {
        Some(id) => Ok(id),
        None => Err(AppError::Unauthorized(String::from_str("Missing or invalid authorization"))),
    }
}

} // verus!
