//! The classifier: every failure of the backend, and every identifier that
//! does not parse, becomes exactly one classified error.

use crate::error::{Classified, CoreError, Error, ErrorKind};
use sea_orm::DbErr;
use uuid::Error as UuidError;
use vstd::prelude::*;
use vstd::string::to_string_from_display_ensures;

verus! {

/// `sea_orm::DbErr`, a failure of the backend: carried as it comes, and
/// read only through the functions below.
#[verifier::external_type_specification]
#[verifier::external_body]
pub struct ExDbErr(DbErr);

/// The constraint violation that `sea_orm::DbErr::sql_err` reports for
/// `failure`, as `sea_orm::SqlErr` displays it, where it reports one.
pub uninterp spec fn violation_text(failure: DbErr) -> Option<Seq<char>>;

/// The text that `failure` holds, where it is `sea_orm::DbErr::RecordNotFound`.
pub uninterp spec fn missing_text(failure: DbErr) -> Option<Seq<char>>;

/// Calls `sea_orm::DbErr::sql_err` and displays the violation that it
/// reports. Trusted: there is a text exactly where `violation_text` holds
/// one for the failure, and it is that one.
#[verifier::external_body]
fn constraint_violation(failure: &DbErr) -> (r: Option<String>)
    ensures
        r is Some <==> violation_text(*failure) is Some,
        r matches Some(text) ==> violation_text(*failure) == Some(text@),
{
    failure.sql_err().map(|violation| violation.to_string())
}

/// Tells `sea_orm::DbErr::RecordNotFound` from the other variants and hands
/// out its text. Trusted: there is a text exactly where `missing_text`
/// holds one for the failure, and it is that one.
#[verifier::external_body]
fn record_not_found(failure: DbErr) -> (r: Option<String>)
    ensures
        r is Some <==> missing_text(failure) is Some,
        r matches Some(text) ==> missing_text(failure) == Some(text@),
{
    match failure {
        DbErr::RecordNotFound(text) => Some(text),
        _ => None,
    }
}

/// What the classifier reads of a backend failure.
pub struct Observed {
    /// The text of the constraint violation, where the backend reported one.
    pub constraint: Option<String>,
    /// The text that came with "record not found", where that was the failure.
    pub missing: Option<String>,
    /// The failure as the backend displays it.
    pub text: String,
}

impl Observed {
    /// The classified error for what was observed: a constraint violation
    /// is a data error, a missing record is a resource that was not found,
    /// and anything else is unknown and keeps the backend's own text.
    pub open spec fn classified(&self) -> Classified {
        match self.constraint {
            Some(violation) => Classified { kind: ErrorKind::Data, message: violation@ },
            None => match self.missing {
                Some(what) => Classified { kind: ErrorKind::NotFound, message: what@ },
                None => Classified { kind: ErrorKind::Unknown, message: self.text@ },
            },
        }
    }
}

/// A failure of this backend, classified.
#[derive(Debug)]
pub struct AsCoreError(CoreError);

impl View for AsCoreError {
    type V = Classified;

    closed spec fn view(&self) -> Classified {
        self.0@
    }
}

impl Error for AsCoreError {
    open spec fn core_error(&self) -> Classified {
        self@
    }

    fn get_core_error(&self) -> (e: CoreError) {
        self.0.clone()
    }
}

impl AsCoreError {
    /// Classifies what was observed of a backend failure.
    pub fn classify(observed: Observed) -> (r: AsCoreError)
        ensures
            r@ == observed.classified(),
    {
        match observed.constraint {
            Some(violation) => AsCoreError(CoreError::DataError(violation)),
            None => match observed.missing {
                Some(what) => AsCoreError(CoreError::ResourceNotFound(what)),
                None => AsCoreError(CoreError::UnknownError(observed.text)),
            },
        }
    }

    /// The error for an identifier that no record has.
    pub fn not_found() -> (r: AsCoreError)
        ensures
            r@ == (Classified { kind: ErrorKind::NotFound, message: "Record not found !"@ }),
    {
        AsCoreError(CoreError::ResourceNotFound("Record not found !".to_owned()))
    }
}

/// Whether `value` displays as `text`.
pub open spec fn displays_as<T: core::fmt::Display>(value: &T, text: Seq<char>) -> bool {
    exists|s: String| #[trigger] to_string_from_display_ensures::<T>(value, s) && s@ == text
}

/// Whether `error` is what the classifier makes of `failure`. A failure
/// that reports a constraint violation is a data error with the text of
/// the violation; failing that, a record that was not found is a resource
/// that was not found, with the text that came with it; and anything else
/// is unknown and keeps the text that the backend displays for it.
pub open spec fn classifies(failure: DbErr, error: Classified) -> bool {
    match violation_text(failure) {
        Some(violation) => error == (Classified { kind: ErrorKind::Data, message: violation }),
        None => match missing_text(failure) {
            Some(what) => error == (Classified { kind: ErrorKind::NotFound, message: what }),
            None => error.kind == ErrorKind::Unknown && displays_as(&failure, error.message),
        },
    }
}

impl From<DbErr> for AsCoreError {
    /// Classifies a failure of the backend: a constraint violation before
    /// a missing record, and a missing record before anything else. The
    /// core never answers "not authorized" or "forbidden", and an unknown
    /// failure keeps the text that the backend displays for it.
    fn from(value: DbErr) -> (r: AsCoreError)
        ensures
            classifies(value, r@),
    {
        let constraint = constraint_violation(&value);
        let text = value.to_string();
        let missing = record_not_found(value);
        AsCoreError::classify(Observed { constraint, missing, text })
    }
}

impl vstd::std_specs::convert::FromSpecImpl<DbErr> for AsCoreError {
    open spec fn obeys_from_spec() -> bool {
        false
    }

    open spec fn from_spec(value: DbErr) -> AsCoreError {
        arbitrary()
    }
}

/// Whether `error` is what the classifier makes of `failure`, the reason
/// why a text is no identifier: a data error, with the parser's own words
/// as its message.
pub open spec fn refuses(failure: UuidError, error: Classified) -> bool {
    error.kind == ErrorKind::Data && displays_as(&failure, error.message)
}

/// Whether `error` is the data error for a text that is no identifier.
pub open spec fn malformed(error: Classified) -> bool {
    exists|failure: UuidError| #[trigger] refuses(failure, error)
}

/// A text that is no identifier is the caller's mistake, and is told apart
/// from an identifier that no record has: the error is a data error, never
/// "not found".
pub proof fn lemma_malformed_is_a_data_error(error: Classified)
    requires
        malformed(error),
    ensures
        error.kind == ErrorKind::Data,
        error.kind != ErrorKind::NotFound,
{
}

/// Whatever the backend's failure, the classifier answers with one of the
/// three kinds that the core raises, never with one of the two that speak
/// of the caller's rights.
pub proof fn lemma_core_raises_three_kinds(failure: DbErr, error: Classified)
    requires
        classifies(failure, error),
    ensures
        error.kind != ErrorKind::NotAuthorized,
        error.kind != ErrorKind::Forbidden,
{
}

impl From<UuidError> for AsCoreError {
    /// An identifier that does not parse is a data error, with the parser's
    /// own words as its message.
    fn from(value: UuidError) -> (r: AsCoreError)
        ensures
            refuses(value, r@),
    {
        AsCoreError(CoreError::DataError(value.to_string()))
    }
}

impl vstd::std_specs::convert::FromSpecImpl<UuidError> for AsCoreError {
    open spec fn obeys_from_spec() -> bool {
        false
    }

    open spec fn from_spec(value: UuidError) -> AsCoreError {
        arbitrary()
    }
}

} // verus!
