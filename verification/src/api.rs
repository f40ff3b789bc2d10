use vstd::prelude::*;

verus! {

/// The error body of an API reply.
#[derive(Debug)]
pub struct ApiError {
    pub message: String,
}

/// The body of an API reply: either the data or an error.
#[derive(Debug)]
pub enum ApiResponse<T> {
    Success { data: T },
    Error { error: ApiError },
}

/// HTTP status of a successful reply.
pub const STATUS_OK: u16 = 200;

/// HTTP status of a reply that carries an `ApiResponse::Error`.
pub const STATUS_BAD_REQUEST: u16 = 400;

/// HTTP status of a request without a valid bearer token.
pub const STATUS_UNAUTHORIZED: u16 = 401;

/// HTTP status of a registration for an address that already has an account.
pub const STATUS_CONFLICT: u16 = 409;

/// HTTP status of a reply to a failure of the service itself.
pub const STATUS_INTERNAL_SERVER_ERROR: u16 = 500;

/// A reply together with the HTTP status it is sent under.
#[derive(Debug)]
pub struct Reply<T> {
    pub status: u16,
    pub body: ApiResponse<T>,
}

impl ApiError {
    /// An error with the given message.
    pub fn new(message: &str) -> (r: ApiError)
        ensures
            r.message@ == message@,
    {
        ApiError { message: crate::text::to_owned_string(message) }
    }

    /// An error whose message is `prefix: detail`.
    pub fn with_detail(prefix: &str, detail: &str) -> (r: ApiError)
        ensures
            r.message@ == prefix@ + ": "@ + detail@,
    {
        ApiError { message: crate::text::concat3(prefix, ": ", detail) }
    }
}

impl<T> ApiResponse<T> {
    /// The HTTP status under which the reply is sent: 200 for data, 400 for an error.
    pub fn status_code(&self) -> (r: u16)
        ensures
            self is Success ==> r == STATUS_OK,
            self is Error ==> r == STATUS_BAD_REQUEST,
    {
        match self {
            ApiResponse::Success { .. } => STATUS_OK,
            ApiResponse::Error { .. } => STATUS_BAD_REQUEST,
        }
    }

    /// Whether the reply carries data.
    pub fn is_success(&self) -> (r: bool)
        ensures
            r == self is Success,
    {
        match self {
            ApiResponse::Success { .. } => true,
            ApiResponse::Error { .. } => false,
        }
    }
}

} // verus!
