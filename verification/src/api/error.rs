//! How a classified error is shown to a client: a status and a description.

use crate::error::{Classified, CoreError, ErrorKind};
use vstd::prelude::*;

verus! {

/// The status that stands for a kind of error.
pub open spec fn status_of(kind: ErrorKind) -> u16 {
    match kind {
        ErrorKind::Data => 400,
        ErrorKind::NotFound => 404,
        ErrorKind::NotAuthorized => 401,
        ErrorKind::Forbidden => 403,
        ErrorKind::Unknown => 500,
    }
}

/// A classified error on its way to a client.
#[derive(Debug)]
pub struct AsHttpError(CoreError);

/// What the client is sent for an error: the status, and a body that holds
/// the error's message as its description.
pub struct ErrorResponse {
    pub status: u16,
    pub description: String,
}

impl View for AsHttpError {
    type V = Classified;

    closed spec fn view(&self) -> Classified {
        self.0@
    }
}

impl From<CoreError> for AsHttpError {
    fn from(value: CoreError) -> (r: AsHttpError)
        ensures
            r@ == value@,
    {
        AsHttpError(value)
    }
}

impl vstd::std_specs::convert::FromSpecImpl<CoreError> for AsHttpError {
    open spec fn obeys_from_spec() -> bool {
        false
    }

    open spec fn from_spec(value: CoreError) -> AsHttpError {
        arbitrary()
    }
}

impl AsHttpError {
    /// The status that tells the client which kind of error this is.
    pub fn status_code(&self) -> (status: u16)
        ensures
            status == status_of(self@.kind),
    {
        match self.0.kind() {
            ErrorKind::Data => 400,
            ErrorKind::NotFound => 404,
            ErrorKind::NotAuthorized => 401,
            ErrorKind::Forbidden => 403,
            ErrorKind::Unknown => 500,
        }
    }

    /// The response for the error: its status, and its message as the
    /// description.
    pub fn error_response(&self) -> (response: ErrorResponse)
        ensures
            response.status == status_of(self@.kind),
            response.description@ == self@.message,
    {
        ErrorResponse { status: self.status_code(), description: self.0.to_string() }
    }

    /// The error as text: its message.
    pub fn to_string(&self) -> (text: String)
        ensures
            text@ == self@.message,
    {
        self.0.to_string()
    }
}

/// No two kinds of error share a status: the status alone tells the client
/// which kind it met.
pub proof fn lemma_status_tells_kinds_apart(a: ErrorKind, b: ErrorKind)
    ensures
        status_of(a) == status_of(b) <==> a == b,
{
}

} // verus!
