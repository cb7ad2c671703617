//! The error model: storage failures, request failures, and the HTTP status
//! and body that each failure is answered with.

use vstd::prelude::*;

verus! {

/// HTTP status answered for a request that is not allowed.
pub const STATUS_FORBIDDEN: u16 = 403;
/// HTTP status answered for a request that conflicts with stored state.
pub const STATUS_CONFLICT: u16 = 409;
/// HTTP status answered for a malformed or refused request.
pub const STATUS_BAD_REQUEST: u16 = 400;
/// HTTP status answered for a failure on the service's side.
pub const STATUS_INTERNAL_SERVER_ERROR: u16 = 500;
/// HTTP status answered when the requested record does not exist.
pub const STATUS_NOT_FOUND: u16 = 404;

/// A failure of the storage layer. The variants that stand for a failure of
/// the database client carry the client's own description of the failure.
#[derive(Debug, PartialEq, Eq)]
pub enum DynamoDBError {
    DynamoDB(String),
    PutItem(String),
    GetItem(String),
    BatchGetItem(String),
    QueryError(String),
    UpdateError(String),
    DeleteError(String),
    Serialization(String),
    BuildError(String),
    NotFound(String),
    AlreadyExists(String),
    PreconditionFailed(String),
}

impl DynamoDBError {
    /// The human-readable description of the failure.
    pub open spec fn text(&self) -> Seq<char> {
        match self {
            DynamoDBError::DynamoDB(d) => "DynamoDB error: "@ + d@,
            DynamoDBError::PutItem(d) => "DynamoDB put item error: "@ + d@,
            DynamoDBError::GetItem(d) => "DynamoDB get item error: "@ + d@,
            DynamoDBError::BatchGetItem(d) => "DynamoDB batch get item error: "@ + d@,
            DynamoDBError::QueryError(d) => "Query error: "@ + d@,
            DynamoDBError::UpdateError(d) => "Update error: "@ + d@,
            DynamoDBError::DeleteError(d) => "Delete error: "@ + d@,
            DynamoDBError::Serialization(d) => "Serialization error: "@ + d@,
            DynamoDBError::BuildError(d) => "Build error: "@ + d@,
            DynamoDBError::NotFound(d) => "Not found: "@ + d@,
            DynamoDBError::AlreadyExists(d) => "Already exist: "@ + d@,
            DynamoDBError::PreconditionFailed(d) => "Precondition failed: "@ + d@,
        }
    }

    /// Writes the human-readable description of the failure.
    pub fn message(&self) -> (text: String)
        ensures
            text@ == self.text(),
    {
        let (prefix, detail) = match self {
            DynamoDBError::DynamoDB(d) => ("DynamoDB error: ", d),
            DynamoDBError::PutItem(d) => ("DynamoDB put item error: ", d),
            DynamoDBError::GetItem(d) => ("DynamoDB get item error: ", d),
            DynamoDBError::BatchGetItem(d) => ("DynamoDB batch get item error: ", d),
            DynamoDBError::QueryError(d) => ("Query error: ", d),
            DynamoDBError::UpdateError(d) => ("Update error: ", d),
            DynamoDBError::DeleteError(d) => ("Delete error: ", d),
            DynamoDBError::Serialization(d) => ("Serialization error: ", d),
            DynamoDBError::BuildError(d) => ("Build error: ", d),
            DynamoDBError::NotFound(d) => ("Not found: ", d),
            DynamoDBError::AlreadyExists(d) => ("Already exist: ", d),
            DynamoDBError::PreconditionFailed(d) => ("Precondition failed: ", d),
        };
        let mut text = String::from_str(prefix);
        text.append(detail.as_str());
        text
    }
}

/// A failure of a request, as the request handlers report it.
#[derive(Debug, PartialEq, Eq)]
pub enum AppError {
    Forbidden,
    Conflict(String),
    BadRequest(String),
    Internal(String),
    NotFound(String),
    Repository(DynamoDBError),
}

impl AppError {
    /// The human-readable description of the failure.
    pub open spec fn text(&self) -> Seq<char> {
        match self {
            AppError::Forbidden => "Forbidden"@,
            AppError::Conflict(m) => m@,
            AppError::BadRequest(m) => m@,
            AppError::Internal(_) => "Internal server error"@,
            AppError::NotFound(m) => m@,
            AppError::Repository(e) => e.text(),
        }
    }

    /// The HTTP status and the error text that the failure is answered with.
    pub open spec fn response(&self) -> (u16, Seq<char>) {
        match self {
            AppError::Forbidden => (STATUS_FORBIDDEN, "Forbidden"@),
            AppError::Conflict(m) => (STATUS_CONFLICT, m@),
            AppError::BadRequest(m) => (STATUS_BAD_REQUEST, m@),
            AppError::Internal(m) => (STATUS_INTERNAL_SERVER_ERROR, m@),
            AppError::NotFound(m) => (STATUS_NOT_FOUND, m@),
            AppError::Repository(DynamoDBError::NotFound(id)) => (STATUS_NOT_FOUND, id@),
            AppError::Repository(e) => (STATUS_INTERNAL_SERVER_ERROR, e.text()),
        }
    }

    /// Writes the human-readable description of the failure.
    pub fn message(&self) -> (text: String)
        ensures
            text@ == self.text(),
    {
        match self {
            AppError::Forbidden => String::from_str("Forbidden"),
            AppError::Conflict(m) => m.clone(),
            AppError::BadRequest(m) => m.clone(),
            AppError::Internal(_) => String::from_str("Internal server error"),
            AppError::NotFound(m) => m.clone(),
            AppError::Repository(e) => e.message(),
        }
    }

    /// The HTTP status and the text of the `error` field of the body that
    /// the failure is answered with.
    pub fn response_parts(&self) -> (parts: (u16, String))
        ensures
            (parts.0, parts.1@) == self.response(),
            self is Repository && !(self->Repository_0 is NotFound) ==> parts.0
                == STATUS_INTERNAL_SERVER_ERROR && parts.1@ == self->Repository_0.text(),
            self is Repository && self->Repository_0 is NotFound ==> parts.0 == STATUS_NOT_FOUND
                && parts.1@ == self->Repository_0->NotFound_0@,
            self is Forbidden ==> parts.0 == STATUS_FORBIDDEN,
            self matches AppError::Conflict(m) ==> parts.0 == STATUS_CONFLICT && parts.1 == m,
            self matches AppError::BadRequest(m) ==> parts.0 == STATUS_BAD_REQUEST && parts.1
                == m,
            self matches AppError::Internal(m) ==> parts.0 == STATUS_INTERNAL_SERVER_ERROR
                && parts.1 == m,
            self matches AppError::NotFound(m) ==> parts.0 == STATUS_NOT_FOUND && parts.1 == m,
    {
        match self {
            AppError::Forbidden => (STATUS_FORBIDDEN, String::from_str("Forbidden")),
            AppError::Conflict(m) => (STATUS_CONFLICT, m.clone()),
            AppError::BadRequest(m) => (STATUS_BAD_REQUEST, m.clone()),
            AppError::Internal(m) => (STATUS_INTERNAL_SERVER_ERROR, m.clone()),
            AppError::NotFound(m) => (STATUS_NOT_FOUND, m.clone()),
            AppError::Repository(DynamoDBError::NotFound(id)) => (STATUS_NOT_FOUND, id.clone()),
            AppError::Repository(e) => (STATUS_INTERNAL_SERVER_ERROR, e.message()),
        }
    }
}

/// How a storage failure is answered: a missing record with 404 and the
/// record's id; every other storage failure with 500 and its own text.
/// Only refusals of the request itself are answered with a 4xx status.
pub proof fn lemma_storage_failure_answers(e: DynamoDBError)
    ensures
        e matches DynamoDBError::NotFound(id) ==> AppError::Repository(e).response() == (
            STATUS_NOT_FOUND,
            id@,
        ),
        !(e is NotFound) ==> AppError::Repository(e).response() == (
            STATUS_INTERNAL_SERVER_ERROR,
            e.text(),
        ),
{
}

/// The status of every failure: the request's own refusals are answered
/// 403, 409, 400 and 404, with the refusal's text; internal failures 500.
pub proof fn lemma_request_failure_statuses(m: String)
    ensures
        AppError::Forbidden.response().0 == STATUS_FORBIDDEN,
        AppError::Conflict(m).response() == (STATUS_CONFLICT, m@),
        AppError::BadRequest(m).response() == (STATUS_BAD_REQUEST, m@),
        AppError::Internal(m).response() == (STATUS_INTERNAL_SERVER_ERROR, m@),
        AppError::NotFound(m).response() == (STATUS_NOT_FOUND, m@),
{
}

impl From<DynamoDBError> for AppError {
    fn from(e: DynamoDBError) -> (r: AppError)
        ensures
            r == AppError::Repository(e),
    {
        AppError::Repository(e)
    }
}

impl vstd::std_specs::convert::FromSpecImpl<DynamoDBError> for AppError {
    open spec fn obeys_from_spec() -> bool {
        true
    }

    open spec fn from_spec(v: DynamoDBError) -> AppError {
        AppError::Repository(v)
    }
}

} // verus!
