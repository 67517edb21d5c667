//! The closed taxonomy of failures that every operation of the library reports.

use vstd::prelude::*;

verus! {

/// The five kinds of failure.
#[derive(Clone, Copy, Debug, PartialEq, Eq, Structural)]
pub enum ErrorKind {
    /// Malformed input or a constraint that the backend refused.
    Data,
    /// The operation named an identifier that no record has.
    NotFound,
    /// The caller is not authenticated.
    NotAuthorized,
    /// The caller is authenticated but may not do this.
    Forbidden,
    /// A backend failure that fits no other kind.
    Unknown,
}

/// What a classified error is: a kind and a message for people.
pub struct Classified {
    pub kind: ErrorKind,
    pub message: Seq<char>,
}

/// A classified error.
#[derive(Debug)]
pub enum CoreError {
    DataError(String),
    ResourceNotFound(String),
    OperationNotAuthorized(String),
    OperationForbidden(String),
    UnknownError(String),
}

impl View for CoreError {
    type V = Classified;

    open spec fn view(&self) -> Classified {
        match self {
            CoreError::DataError(m) => Classified { kind: ErrorKind::Data, message: m@ },
            CoreError::ResourceNotFound(m) => Classified { kind: ErrorKind::NotFound, message: m@ },
            CoreError::OperationNotAuthorized(m) => Classified {
                kind: ErrorKind::NotAuthorized,
                message: m@,
            },
            CoreError::OperationForbidden(m) => Classified {
                kind: ErrorKind::Forbidden,
                message: m@,
            },
            CoreError::UnknownError(m) => Classified { kind: ErrorKind::Unknown, message: m@ },
        }
    }
}

impl CoreError {
    /// Which of the five kinds this error is.
    pub fn kind(&self) -> (k: ErrorKind)
        ensures
            k == self@.kind,
    {
        match self {
            CoreError::DataError(_) => ErrorKind::Data,
            CoreError::ResourceNotFound(_) => ErrorKind::NotFound,
            CoreError::OperationNotAuthorized(_) => ErrorKind::NotAuthorized,
            CoreError::OperationForbidden(_) => ErrorKind::Forbidden,
            CoreError::UnknownError(_) => ErrorKind::Unknown,
        }
    }

    /// The message the error carries.
    pub fn message(&self) -> (m: &str)
        ensures
            m@ == self@.message,
    {
        match self {
            CoreError::DataError(m) => m.as_str(),
            CoreError::ResourceNotFound(m) => m.as_str(),
            CoreError::OperationNotAuthorized(m) => m.as_str(),
            CoreError::OperationForbidden(m) => m.as_str(),
            CoreError::UnknownError(m) => m.as_str(),
        }
    }

    /// The error as text: its message, whatever its kind.
    pub fn to_string(&self) -> (s: String)
        ensures
            s@ == self@.message,
    {
        self.message().to_owned()
    }
}

impl Clone for CoreError {
    fn clone(&self) -> (r: CoreError)
        ensures
            r == *self,
    {
        match self {
            CoreError::DataError(m) => CoreError::DataError(m.clone()),
            CoreError::ResourceNotFound(m) => CoreError::ResourceNotFound(m.clone()),
            CoreError::OperationNotAuthorized(m) => CoreError::OperationNotAuthorized(m.clone()),
            CoreError::OperationForbidden(m) => CoreError::OperationForbidden(m.clone()),
            CoreError::UnknownError(m) => CoreError::UnknownError(m.clone()),
        }
    }
}

impl PartialEq for CoreError {
    fn eq(&self, other: &CoreError) -> (r: bool) {
        match (self, other) {
            (CoreError::DataError(a), CoreError::DataError(b)) => *a == *b,
            (CoreError::ResourceNotFound(a), CoreError::ResourceNotFound(b)) => *a == *b,
            (CoreError::OperationNotAuthorized(a), CoreError::OperationNotAuthorized(b)) => *a == *b,
            (CoreError::OperationForbidden(a), CoreError::OperationForbidden(b)) => *a == *b,
            (CoreError::UnknownError(a), CoreError::UnknownError(b)) => *a == *b,
            _ => false,
        }
    }
}

impl vstd::std_specs::cmp::PartialEqSpecImpl for CoreError {
    open spec fn obeys_eq_spec() -> bool {
        true
    }

    open spec fn eq_spec(&self, other: &CoreError) -> bool {
        self@ == other@
    }
}

impl Eq for CoreError {

}

/// Anything that can say which classified error it stands for.
pub trait Error: Sync + Send + core::fmt::Debug {
    /// The classified error this value stands for.
    spec fn core_error(&self) -> Classified;

    fn get_core_error(&self) -> (e: CoreError)
        ensures
            e@ == self.core_error(),
    ;
}

} // verus!
