//! Errors as JSON-RPC carries them.
use crate::text;
use vstd::prelude::*;

verus! {

/// The request cannot be served as it stands.
pub const INVALID_REQUEST_ERROR_CODE: i64 = -32600;

/// The server failed to serve the request.
pub const INTERNAL_ERROR_CODE: i64 = -32603;

/// The error object of a JSON-RPC response.
#[derive(Clone, Debug, PartialEq, Eq)]
pub struct JSONRPCErrorError {
    /// What kind of error it is.
    pub code: i64,
    /// The error in words.
    pub message: String,
    /// Further details, as JSON text.
    pub data: Option<String>,
}

/// The mathematical model of [`JSONRPCErrorError`].
pub struct JSONRPCErrorErrorView {
    pub code: i64,
    pub message: Seq<char>,
    pub data: Option<Seq<char>>,
}

impl View for JSONRPCErrorError {
    type V = JSONRPCErrorErrorView;

    open spec fn view(&self) -> JSONRPCErrorErrorView {
        JSONRPCErrorErrorView {
            code: self.code,
            message: self.message@,
            data: self.data.deep_view(),
        }
    }
}

/// The error that blames the request, with no further details.
pub open spec fn invalid_request_view(message: Seq<char>) -> JSONRPCErrorErrorView {
    JSONRPCErrorErrorView { code: INVALID_REQUEST_ERROR_CODE, message, data: None }
}

/// The error that blames the server, with no further details.
pub open spec fn internal_error_view(message: Seq<char>) -> JSONRPCErrorErrorView {
    JSONRPCErrorErrorView { code: INTERNAL_ERROR_CODE, message, data: None }
}

/// The error that blames the request.
pub fn invalid_request(message: String) -> (error: JSONRPCErrorError)
    ensures
        error@ == invalid_request_view(message@),
{
    JSONRPCErrorError { code: INVALID_REQUEST_ERROR_CODE, message, data: None }
}

/// The error that blames the server.
pub fn internal_error(message: String) -> (error: JSONRPCErrorError)
    ensures
        error@ == internal_error_view(message@),
{
    JSONRPCErrorError { code: INTERNAL_ERROR_CODE, message, data: None }
}

/// Blames the request with a fixed lead and the particulars of the case.
pub(crate) fn invalid_request_about(lead: &str, particulars: &str) -> (error: JSONRPCErrorError)
    ensures
        error@ == invalid_request_view(lead@ + particulars@),
{
    invalid_request(text::concatenate(lead, particulars))
}

/// Blames the server with a fixed lead and the particulars of the case.
pub(crate) fn internal_error_about(lead: &str, particulars: &str) -> (error: JSONRPCErrorError)
    ensures
        error@ == internal_error_view(lead@ + particulars@),
{
    internal_error(text::concatenate(lead, particulars))
}

/// An error carries the message as it was given and no further details. The
/// code that blames the request is the one that JSON-RPC has for an invalid
/// request, and the code that blames the server the one for an internal error.
pub proof fn law_errors_carry_the_standard_codes(message: Seq<char>)
    ensures
        invalid_request_view(message).code == -32600,
        internal_error_view(message).code == -32603,
        invalid_request_view(message).message == message,
        internal_error_view(message).message == message,
        invalid_request_view(message).data is None,
        internal_error_view(message).data is None,
{
}

} // verus!
