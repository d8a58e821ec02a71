//! Error normalization: transport failures and the unifying client-facing error.

use vstd::prelude::*;
use crate::auth::{AuthError, AuthMethod};

verus! {

/// A failure of the REST transport: HTTP status and response body.
#[derive(Debug)]
pub struct RestError {
    pub status: u16,
    pub body: String,
}

/// A failure of the gRPC transport: status code and message.
#[derive(Debug)]
pub struct GrpcStatus {
    pub code: u32,
    pub message: String,
}

/// The unifying client-facing error. REST failures carry the auth method
/// active at the time (or `None` if unauthenticated), so a caller can tell
/// "unauthenticated" from "broken credential" from "unrelated business
/// failure". Usage errors are caller mistakes, reported before any network
/// call.
#[derive(Debug)]
pub enum ApiError {
    Auth(AuthError),
    Rest { status: u16, body: String, auth_method: Option<AuthMethod> },
    Grpc { code: u32, message: String },
    Usage { message: String },
}

impl ApiError {
    /// Normalize a REST transport failure, tagging it with the auth method
    /// active at the time of the call.
    pub fn from_with_auth_method(e: RestError, auth_method: Option<AuthMethod>) -> (r: ApiError)
        ensures
            r == (ApiError::Rest { status: e.status, body: e.body, auth_method }),
    {
        let RestError { status, body } = e;
        ApiError::Rest { status, body, auth_method }
    }

    /// Normalize a gRPC transport failure. gRPC failures are reported via
    /// status, not REST-style payloads, so they carry no auth-method tag.
    pub fn from_grpc(e: GrpcStatus) -> (r: ApiError)
        ensures
            r == (ApiError::Grpc { code: e.code, message: e.message }),
    {
        let GrpcStatus { code, message } = e;
        ApiError::Grpc { code, message }
    }
}

} // verus!
