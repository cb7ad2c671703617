use group_core::errors::{AppError, DynamoDBError};

#[test]
fn dynamo_error_messages_carry_their_prefix() {
    let d = |s: &str| s.to_string();
    let cases = vec![
        (DynamoDBError::DynamoDB(d("x")), "DynamoDB error: x"),
        (DynamoDBError::PutItem(d("x")), "DynamoDB put item error: x"),
        (DynamoDBError::GetItem(d("x")), "DynamoDB get item error: x"),
        (DynamoDBError::BatchGetItem(d("x")), "DynamoDB batch get item error: x"),
        (DynamoDBError::QueryError(d("x")), "Query error: x"),
        (DynamoDBError::UpdateError(d("x")), "Update error: x"),
        (DynamoDBError::DeleteError(d("x")), "Delete error: x"),
        (DynamoDBError::Serialization(d("x")), "Serialization error: x"),
        (DynamoDBError::BuildError(d("x")), "Build error: x"),
        (DynamoDBError::NotFound(d("x")), "Not found: x"),
        (DynamoDBError::AlreadyExists(d("x")), "Already exist: x"),
        (DynamoDBError::PreconditionFailed(d("x")), "Precondition failed: x"),
    ];
    for (e, expected) in cases {
        assert_eq!(e.message(), expected);
    }
}

#[test]
fn app_error_messages() {
    assert_eq!(AppError::Forbidden.message(), "Forbidden");
    assert_eq!(AppError::Conflict("c".to_string()).message(), "c");
    assert_eq!(AppError::BadRequest("b".to_string()).message(), "b");
    assert_eq!(AppError::Internal("i".to_string()).message(), "Internal server error");
    assert_eq!(AppError::NotFound("n".to_string()).message(), "n");
    assert_eq!(
        AppError::Repository(DynamoDBError::QueryError("q".to_string())).message(),
        "Query error: q"
    );
}

#[test]
fn forbidden_is_answered_403() {
    assert_eq!(AppError::Forbidden.response_parts(), (403, "Forbidden".to_string()));
}

#[test]
fn conflict_is_answered_409_with_its_text() {
    assert_eq!(AppError::Conflict("dup".to_string()).response_parts(), (409, "dup".to_string()));
}

#[test]
fn bad_request_is_answered_400_with_its_text() {
    assert_eq!(AppError::BadRequest("bad".to_string()).response_parts(), (400, "bad".to_string()));
}

#[test]
fn internal_error_is_answered_500_with_its_text() {
    assert_eq!(AppError::Internal("boom".to_string()).response_parts(), (500, "boom".to_string()));
}

#[test]
fn not_found_is_answered_404() {
    assert_eq!(AppError::NotFound("p".to_string()).response_parts(), (404, "p".to_string()));
}

#[test]
fn missing_record_is_answered_404_with_its_id() {
    let e = AppError::Repository(DynamoDBError::NotFound("g-1".to_string()));
    assert_eq!(e.response_parts(), (404, "g-1".to_string()));
}

#[test]
fn other_storage_failure_is_answered_500_with_its_description() {
    let e = AppError::Repository(DynamoDBError::PutItem("throttled".to_string()));
    assert_eq!(e.response_parts(), (500, "DynamoDB put item error: throttled".to_string()));
}

#[test]
fn storage_failure_converts_into_request_failure() {
    let e: AppError = DynamoDBError::NotFound("x".to_string()).into();
    assert_eq!(e, AppError::Repository(DynamoDBError::NotFound("x".to_string())));
}
