//! The uniform success envelope.

use vstd::prelude::*;

verus! {

/// An optional human-readable message and an optional payload.
#[derive(Debug, PartialEq, Eq)]
pub struct ApiResponse<T> {
    pub message: Option<String>,
    pub data: Option<T>,
}

impl<T> ApiResponse<T> {
    /// A payload without a message.
    pub fn success(data: T) -> (response: ApiResponse<T>)
        ensures
            response.message is None,
            response.data == Some(data),
    {
        ApiResponse { message: None, data: Some(data) }
    }

    /// A payload with a message.
    pub fn with_message(message: String, data: T) -> (response: ApiResponse<T>)
        ensures
            response.message == Some(message),
            response.data == Some(data),
    {
        ApiResponse { message: Some(message), data: Some(data) }
    }
}

/// A bare error message.
#[derive(Clone, Debug, PartialEq, Eq)]
pub struct ErrorResponse {
    pub error: String,
}

} // verus!
