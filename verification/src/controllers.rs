use vstd::prelude::*;
use crate::api::{ApiError, ApiResponse, STATUS_UNAUTHORIZED};
use crate::models::UserShort;
use crate::repository::RepoError;
use crate::text::to_owned_string;
use crate::token::{request_bearer_token, TokenExtractManager};

verus! {

/// Reply to a token that matches no user.
pub const INVALID_TOKEN_ERROR: &'static str = "Invalid or expired token";

/// Data of a successful removal.
pub const DELETED_MESSAGE: &'static str = "deleted";

/// A storage request whose bearer token is to be matched to a user.
pub struct AwaitingTokenOwner {
    pub token: String,
}

/// Starts a storage request: its bearer token, or the 401 reply `No token`.
pub fn authorize_request(headers: http::HeaderMap) -> (r: Result<AwaitingTokenOwner, (u16, ApiError)>)
    ensures
        request_bearer_token(headers) matches Some(t) ==> (r matches Ok(next) && next.token@ == t),
        request_bearer_token(headers) is None ==> (r matches Err(e) && e.0 == STATUS_UNAUTHORIZED
            && e.1.message@ == "No token"@),
{
    let manager = TokenExtractManager::new(headers);
    match manager.check_token_error() {
        Ok(token) => Ok(AwaitingTokenOwner { token }),
        Err(e) => Err(e),
    }
}

impl AwaitingTokenOwner {
    /// Decides on the owner of the token: no owner (or a failed lookup) is the 401 reply
    /// `Invalid or expired token`; otherwise the request runs as that user.
    pub fn on_token_owner(self, found: Result<UserShort, RepoError>) -> (r: Result<
        i64,
        (u16, ApiError),
    >)
        ensures
            found matches Ok(u) ==> r == Ok::<i64, (u16, ApiError)>(u.id),
            found is Err ==> (r matches Err(e) && e.0 == STATUS_UNAUTHORIZED && e.1.message@
                == INVALID_TOKEN_ERROR@),
    {
        match found {
            Ok(user) => Ok(user.id),
            Err(_) => Err((STATUS_UNAUTHORIZED, ApiError::new(INVALID_TOKEN_ERROR))),
        }
    }
}

/// The reply to a storage operation: its data, or its error text.
pub fn reply_with<T>(result: Result<T, String>) -> (r: ApiResponse<T>)
    ensures
        result matches Ok(d) ==> (r matches ApiResponse::Success { data } && data == d),
        result matches Err(m) ==> (r matches ApiResponse::Error { error } && error.message == m),
{
    match result {
        Ok(data) => ApiResponse::Success { data },
        Err(message) => ApiResponse::Error { error: ApiError { message } },
    }
}

/// The reply to a removal: `deleted`, or the error text.
pub fn deleted_reply(result: Result<(), String>) -> (r: ApiResponse<String>)
    ensures
        result is Ok ==> (r matches ApiResponse::Success { data } && data@ == DELETED_MESSAGE@),
        result matches Err(m) ==> (r matches ApiResponse::Error { error } && error.message == m),
{
    match result {
        Ok(()) => ApiResponse::Success { data: to_owned_string(DELETED_MESSAGE) },
        Err(message) => ApiResponse::Error { error: ApiError { message } },
    }
}

} // verus!
