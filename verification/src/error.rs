//! Failures of the storage layer, and how they are reported over HTTP.

use diesel::result::DatabaseErrorKind;
use vstd::prelude::*;
use vstd::string::*;

verus! {

/// A failure as an HTTP response reports it.
#[derive(Debug, PartialEq, Eq)]
pub struct HttpError {
    /// The HTTP status code.
    pub status: u16,
    pub msg: String,
}

/// An [`HttpError`] as a value.
pub struct HttpErrorModel {
    pub status: u16,
    pub msg: Seq<char>,
}

impl View for HttpError {
    type V = HttpErrorModel;

    open spec fn view(&self) -> HttpErrorModel {
        HttpErrorModel { status: self.status, msg: self.msg@ }
    }
}

/// The ways in which a query can fail, as far as they are told apart.
#[derive(Debug, Clone, Copy, PartialEq, Eq, Structural)]
pub enum FaultKind {
    /// The query held a nul byte.
    InvalidCString,
    /// The database refused the query because a value must be unique and is not.
    UniqueViolation,
    /// The database refused the query for another reason.
    DatabaseError,
    /// A query that must return a row returned none.
    NotFound,
    /// The query could not be built.
    QueryBuilderError,
    /// What the database sent could not be read.
    DeserializationError,
    /// What was to be sent to the database could not be written.
    SerializationError,
    /// The transaction was rolled back on request.
    RollbackTransaction,
    /// The operation cannot be done inside a transaction.
    AlreadyInTransaction,
    /// Any other failure.
    Other,
}

/// A failed query: its kind, the failure as it prints itself, plainly and
/// in its alternate form, and what the database added to a constraint violation.
#[derive(Debug, PartialEq, Eq)]
pub struct StoreFault {
    pub kind: FaultKind,
    pub text: String,
    pub alternate: String,
    pub details: Option<String>,
}

/// A [`StoreFault`] as a value.
pub struct FaultModel {
    pub kind: FaultKind,
    pub text: Seq<char>,
    pub alternate: Seq<char>,
    pub details: Option<Seq<char>>,
}

impl View for StoreFault {
    type V = FaultModel;

    open spec fn view(&self) -> FaultModel {
        FaultModel {
            kind: self.kind,
            text: self.text@,
            alternate: self.alternate@,
            details: match self.details {
                Some(details) => Some(details@),
                None => None,
            },
        }
    }
}

/// How a failed query is reported: a row that is missing as 404, a value
/// that is not unique as 409 with what the database added, a failure that is
/// not told apart as 500, and every other as 400 with the failure's own words.
pub open spec fn reported(context: Seq<char>, fault: FaultModel) -> HttpErrorModel {
    match fault.kind {
        FaultKind::UniqueViolation => HttpErrorModel {
            status: 409,
            msg: "StoreError "@ + context + " "@ + match fault.details {
                Some(details) => details,
                None => Seq::empty(),
            },
        },
        FaultKind::NotFound => HttpErrorModel {
            status: 404,
            msg: "StoreError "@ + context + " not found"@,
        },
        FaultKind::Other => HttpErrorModel {
            status: 500,
            msg: "Unhandled error "@ + context + " "@ + fault.alternate,
        },
        _ => HttpErrorModel { status: 400, msg: "StoreError "@ + context + " "@ + fault.text },
    }
}

/// Reports a failed query about `context`: see [`reported`].
pub fn http_error(context: &str, fault: &StoreFault) -> (error: HttpError)
    ensures
        error@ == reported(context@, fault@),
{
    match fault.kind {
        FaultKind::UniqueViolation => {
            let mut msg = String::from_str("StoreError ");
            msg.append(context);
            msg.append(" ");
            match &fault.details {
                Some(details) => msg.append(details.as_str()),
                None => {},
            }
            HttpError { status: 409, msg }
        },
        FaultKind::NotFound => {
            let mut msg = String::from_str("StoreError ");
            msg.append(context);
            msg.append(" not found");
            HttpError { status: 404, msg }
        },
        FaultKind::Other => {
            let mut msg = String::from_str("Unhandled error ");
            msg.append(context);
            msg.append(" ");
            msg.append(fault.alternate.as_str());
            HttpError { status: 500, msg }
        },
        _ => {
            let mut msg = String::from_str("StoreError ");
            msg.append(context);
            msg.append(" ");
            msg.append(fault.text.as_str());
            HttpError { status: 400, msg }
        },
    }
}

/// Declares `diesel::result::Error`, so that a failed query can be handed
/// to [`db_error`]. Nothing inside it is visible to the proofs.
#[verifier::external_type_specification]
#[verifier::external_body]
pub struct ExDieselError(diesel::result::Error);

/// Tells the variants of `diesel::result::Error` apart: each of the eight
/// variants that are reported apart gives its own kind, every other variant
/// gives `Other`. Nothing is claimed of the result.
#[verifier::external_body]
fn fault_variant(err: &diesel::result::Error) -> (kind: FaultKind) {
    match err {
        diesel::result::Error::InvalidCString(_) => FaultKind::InvalidCString,
        diesel::result::Error::DatabaseError(_, _) => FaultKind::DatabaseError,
        diesel::result::Error::NotFound => FaultKind::NotFound,
        diesel::result::Error::QueryBuilderError(_) => FaultKind::QueryBuilderError,
        diesel::result::Error::DeserializationError(_) => FaultKind::DeserializationError,
        diesel::result::Error::SerializationError(_) => FaultKind::SerializationError,
        diesel::result::Error::RollbackTransaction => FaultKind::RollbackTransaction,
        diesel::result::Error::AlreadyInTransaction => FaultKind::AlreadyInTransaction,
        _ => FaultKind::Other,
    }
}

/// Whether a `diesel::result::Error` is a `DatabaseError` of the kind
/// `DatabaseErrorKind::UniqueViolation`. Nothing is claimed of the result.
#[verifier::external_body]
fn is_unique_violation(err: &diesel::result::Error) -> (yes: bool) {
    matches!(err, diesel::result::Error::DatabaseError(DatabaseErrorKind::UniqueViolation, _))
}

/// What `diesel::result::Error` prints through `Display`. Nothing is claimed of the result.
#[verifier::external_body]
fn fault_text(err: &diesel::result::Error) -> (text: String) {
    format!("{err}")
}

/// What `diesel::result::Error` prints through `Display` in its alternate
/// form. Nothing is claimed of the result.
#[verifier::external_body]
fn fault_alternate(err: &diesel::result::Error) -> (text: String) {
    format!("{err:#}")
}

/// What `DatabaseErrorInformation::details` returns for the information
/// that a `DatabaseError` carries; none for the other variants. Nothing is
/// claimed of the result.
#[verifier::external_body]
fn fault_details(err: &diesel::result::Error) -> (details: Option<String>) {
    match err {
        diesel::result::Error::DatabaseError(_, info) => match info.details() {
            Some(details) => Some(String::from(details)),
            None => None,
        },
        _ => None,
    }
}

/// The kind of a failed query: a database error is a unique violation if
/// the database says so, and every other failure is of the kind of its variant.
pub open spec fn kind_of(variant: FaultKind, unique: bool) -> FaultKind {
    if variant == FaultKind::DatabaseError && unique {
        FaultKind::UniqueViolation
    } else {
        variant
    }
}

/// The kind of a failed query: see [`kind_of`].
pub fn fault_kind(variant: FaultKind, unique: bool) -> (kind: FaultKind)
    ensures
        kind == kind_of(variant, unique),
{
    match variant {
        FaultKind::DatabaseError => if unique {
            FaultKind::UniqueViolation
        } else {
            FaultKind::DatabaseError
        },
        other => other,
    }
}

/// What the logic reads of a failed query.
fn fault_of(err: &diesel::result::Error) -> (fault: StoreFault) {
    StoreFault {
        kind: fault_kind(fault_variant(err), is_unique_violation(err)),
        text: fault_text(err),
        alternate: fault_alternate(err),
        details: fault_details(err),
    }
}

/// Reports a failed query about `context`. What the failure is, is for the
/// database layer to say; whatever it says, the report is the one that
/// [`http_error`] makes of it.
pub fn db_error(context: &str, err: diesel::result::Error) -> (error: HttpError)
    ensures
        exists|fault: FaultModel| error@ == reported(context@, fault),
        error.status == 400 || error.status == 404 || error.status == 409 || error.status == 500,
{
    let fault = fault_of(&err);
    http_error(context, &fault)
}

/// How a blocking task ended when it did not end well.
#[derive(Debug, PartialEq, Eq)]
pub enum BlockingFailure {
    /// The task ran and failed.
    Error(HttpError),
    /// The pool of threads stopped before the task was done.
    Canceled,
}

/// How a blocking task that did not end well is reported: its own failure
/// where it ran, and otherwise as 500.
pub open spec fn blocking_reported(failure: BlockingFailure) -> HttpErrorModel {
    match failure {
        BlockingFailure::Error(error) => error@,
        BlockingFailure::Canceled => HttpErrorModel {
            status: 500,
            msg: "Blocking error: Canceled"@,
        },
    }
}

/// Reports a blocking task that did not end well: see [`blocking_reported`].
pub fn db_blocking_error(err: BlockingFailure) -> (error: HttpError)
    ensures
        error@ == blocking_reported(err),
{
    match err {
        BlockingFailure::Error(error) => error,
        BlockingFailure::Canceled => HttpError {
            status: 500,
            msg: String::from_str("Blocking error: Canceled"),
        },
    }
}

} // verus!
