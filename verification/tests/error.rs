use diesel::result::{DatabaseErrorKind, Error};
use nanocl::cargo::store_error;
use nanocl::error::{
    db_blocking_error, db_error, fault_kind, http_error, BlockingFailure, FaultKind, HttpError,
    StoreFault,
};
use nanocl::model::StoreError;

fn fault(kind: FaultKind, details: Option<&str>) -> StoreFault {
    StoreFault {
        kind,
        text: "plain".to_string(),
        alternate: "alternate".to_string(),
        details: details.map(String::from),
    }
}

#[test]
fn missing_row_is_404() {
    let err = db_error("Custom context", Error::NotFound);
    assert_eq!(err.status, 404);
    assert_eq!(err.msg, "StoreError Custom context not found");
}

#[test]
fn unique_violation_is_409() {
    let err = db_error(
        "cargo",
        Error::DatabaseError(DatabaseErrorKind::UniqueViolation, Box::new("duplicate key".to_string())),
    );
    assert_eq!(err, HttpError { status: 409, msg: "StoreError cargo ".to_string() });
}

#[test]
fn other_database_error_is_400_with_its_message() {
    let err = db_error(
        "cargo",
        Error::DatabaseError(DatabaseErrorKind::ForeignKeyViolation, Box::new("no such namespace".to_string())),
    );
    assert_eq!(err, HttpError { status: 400, msg: "StoreError cargo no such namespace".to_string() });
}

#[test]
fn told_apart_failures_are_400_with_their_words() {
    let err = db_error("cargo", Error::RollbackTransaction);
    assert_eq!(err.status, 400);
    assert_eq!(err.msg, "StoreError cargo You have asked diesel to rollback the transaction");
    let err = db_error("cargo", Error::AlreadyInTransaction);
    assert_eq!(err.status, 400);
    assert_eq!(err.msg, "StoreError cargo Cannot perform this operation while a transaction is open");
    let err = db_error("cargo", Error::QueryBuilderError("no changes".into()));
    assert_eq!(err, HttpError { status: 400, msg: "StoreError cargo no changes".to_string() });
    let err = db_error("cargo", Error::DeserializationError("bad date".into()));
    assert_eq!(err, HttpError { status: 400, msg: "StoreError cargo bad date".to_string() });
    let err = db_error("cargo", Error::SerializationError("too early".into()));
    assert_eq!(err, HttpError { status: 400, msg: "StoreError cargo too early".to_string() });
}

#[test]
fn any_other_failure_is_500() {
    let err = db_error("cargo", Error::NotInTransaction);
    assert_eq!(err.status, 500);
    assert_eq!(err.msg, "Unhandled error cargo Cannot perform this operation outside of a transaction");
    let err = db_error("", Error::BrokenTransactionManager);
    assert_eq!(err, HttpError { status: 500, msg: "Unhandled error  The transaction manager is broken".to_string() });
}

#[test]
fn report_follows_the_kind() {
    assert_eq!(
        http_error("ctx", &fault(FaultKind::UniqueViolation, Some("Key (key)=(a) already exists."))),
        HttpError { status: 409, msg: "StoreError ctx Key (key)=(a) already exists.".to_string() }
    );
    assert_eq!(
        http_error("ctx", &fault(FaultKind::UniqueViolation, None)),
        HttpError { status: 409, msg: "StoreError ctx ".to_string() }
    );
    assert_eq!(
        http_error("ctx", &fault(FaultKind::NotFound, Some("ignored"))),
        HttpError { status: 404, msg: "StoreError ctx not found".to_string() }
    );
    assert_eq!(
        http_error("ctx", &fault(FaultKind::Other, None)),
        HttpError { status: 500, msg: "Unhandled error ctx alternate".to_string() }
    );
    for kind in [
        FaultKind::InvalidCString,
        FaultKind::DatabaseError,
        FaultKind::QueryBuilderError,
        FaultKind::DeserializationError,
        FaultKind::SerializationError,
        FaultKind::RollbackTransaction,
        FaultKind::AlreadyInTransaction,
    ] {
        assert_eq!(
            http_error("ctx", &fault(kind, Some("ignored"))),
            HttpError { status: 400, msg: "StoreError ctx plain".to_string() }
        );
    }
}

#[test]
fn unique_violation_is_a_database_error() {
    assert_eq!(fault_kind(FaultKind::DatabaseError, true), FaultKind::UniqueViolation);
    assert_eq!(fault_kind(FaultKind::DatabaseError, false), FaultKind::DatabaseError);
    assert_eq!(fault_kind(FaultKind::NotFound, true), FaultKind::NotFound);
    assert_eq!(fault_kind(FaultKind::Other, false), FaultKind::Other);
}

#[test]
fn blocking_failure_is_its_error_or_500() {
    let inner = HttpError { status: 404, msg: "StoreError cargo not found".to_string() };
    assert_eq!(
        db_blocking_error(BlockingFailure::Error(HttpError { status: 404, msg: "StoreError cargo not found".to_string() })),
        inner
    );
    assert_eq!(
        db_blocking_error(BlockingFailure::Canceled),
        HttpError { status: 500, msg: "Blocking error: Canceled".to_string() }
    );
}

#[test]
fn refusals_have_their_status() {
    let cases = [
        (StoreError::NotFound, 404, "StoreError vm not found"),
        (StoreError::NameConflict, 409, "StoreError vm already exists"),
        (StoreError::Conflict, 409, "StoreError vm conflict"),
        (StoreError::InvalidName, 400, "StoreError vm invalid name"),
        (StoreError::InvalidSpec, 400, "StoreError vm invalid spec"),
        (StoreError::Forbidden, 403, "StoreError vm forbidden"),
        (StoreError::StorageUnavailable, 503, "StoreError vm unavailable"),
    ];
    for (error, status, msg) in cases {
        assert_eq!(store_error("vm", error), HttpError { status, msg: msg.to_string() });
    }
}
