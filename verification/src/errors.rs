use vstd::prelude::*;
use vstd::string::*;

verus! {

/// Failure taxonomy of the read surface: a missing resource, an internal
/// failure, or a datastore failure. The latter two carry a message.
#[derive(Debug)]
pub enum BlogiError {
    NotFound,
    Internal(String),
    Db(String),
}

/// Body of an XRPC-style error reply, as the HTTP layer serializes it.
pub struct XrpcErrorResponse {
    pub error: String,
    pub message: Option<String>,
}

impl BlogiError {
    /// The HTTP status code a reply for this error carries.
    pub fn status_code(&self) -> (r: u16)
        ensures
            self is NotFound ==> r == 404,
            !(self is NotFound) ==> r == 500,
    {
        match self {
            BlogiError::NotFound => 404,
            _ => 500,
        }
    }

    /// The XRPC error body for this error: a short error name, and a human
    /// message only for a missing resource.
    pub fn xrpc_response(&self) -> (r: XrpcErrorResponse)
        ensures
            self is NotFound ==> r.error@ == "NotFound"@,
            self is NotFound ==> (r.message matches Some(m)
                && m@ == "The requested resource was not found."@),
            !(self is NotFound) ==> r.error@ == "InternalServerError"@,
            !(self is NotFound) ==> r.message is None,
    {
        match self {
            BlogiError::NotFound => XrpcErrorResponse {
                error: String::from_str("NotFound"),
                message: Some(String::from_str("The requested resource was not found.")),
            },
            _ => XrpcErrorResponse {
                error: String::from_str("InternalServerError"),
                message: None,
            },
        }
    }
}

} // verus!
