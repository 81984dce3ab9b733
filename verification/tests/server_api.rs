use scroll_service::app::{get_service_status, initialize_server};
use scroll_service::database::types::ServerStatus;
use scroll_service::database::{self, Database};
use scroll_service::server::data::{ServerStatusResponse, ToResponseCode};
use scroll_service::server::error::Error;

#[test]
fn status_codes_follow_the_error_shape() {
    assert_eq!(Error::InvalidMethod.to_status_code(), 405);
    assert_eq!(Error::InvalidPath.to_status_code(), 404);
    assert_eq!(Error::InvalidContentType.to_status_code(), 415);
    assert_eq!(Error::InvalidSerialization(String::from("bad")).to_status_code(), 400);
    assert_eq!(Error::UNITIALIZED.to_status_code(), 500);
    assert_eq!(Error::FailedToPropagate.to_status_code(), 500);
    assert_eq!(Error::RootMismatch.to_status_code(), 500);
    assert_eq!(Error::Elapsed(String::from("deadline")).to_status_code(), 500);
    assert_eq!(Error::Other(String::from("boom")).to_status_code(), 500);
}

#[test]
fn response_bodies_name_the_failure() {
    assert_eq!(Error::FailedToPropagate.response_body(), "Failed to propagate root");
    assert_eq!(Error::InvalidMethod.response_body(), "invalid http method");
    assert_eq!(Error::InvalidPath.response_body(), "invalid path");
    assert_eq!(Error::InvalidContentType.response_body(), "invalid content type");
    assert_eq!(
        Error::RootMismatch.response_body(),
        "Root mismatch between world-id and scroll-world-id."
    );
    assert_eq!(Error::UNITIALIZED.response_body(), "service is not initialized");
    assert_eq!(
        Error::InvalidSerialization(String::from("eof")).response_body(),
        "invalid JSON request: eof"
    );
    assert_eq!(
        Error::Database(database::Error::InternalError(String::from("conflict")))
            .response_body(),
        "database error: conflict"
    );
    assert_eq!(Error::Elapsed(String::from("deadline has elapsed")).response_body(),
        "deadline has elapsed");
    assert_eq!(Error::Other(String::from("boom")).response_body(), "boom");
}

#[test]
fn responses_answer_ok() {
    let response = ServerStatusResponse(ServerStatus {
        status: String::from("synced"),
        last_synced: Some(3),
    });
    assert_eq!(response.to_response_code(), 200);
    assert_eq!(().to_response_code(), 200);
}

#[test]
fn response_wraps_the_row() {
    let status = ServerStatus { status: String::from("pending"), last_synced: None };
    let response: ServerStatusResponse = ServerStatusResponse::from(status.clone());
    assert_eq!(response.0, status);
}

#[test]
fn service_status_is_uninitialized_until_first_boot() {
    let db = Database::new();
    assert_eq!(get_service_status(&db), Err(Error::UNITIALIZED));
}

#[test]
fn service_status_reflects_the_persisted_row() {
    let mut db = Database::new();
    initialize_server(&mut db, 11);
    let response = get_service_status(&db).unwrap();
    assert_eq!(response.0.status, "unsynced");
    assert_eq!(response.0.last_synced, Some(11));

    // Initialization is idempotent: a later boot changes nothing.
    initialize_server(&mut db, 99);
    let response = get_service_status(&db).unwrap();
    assert_eq!(response.0.last_synced, Some(11));

    db.mark_status_as_synced(42);
    let response = get_service_status(&db).unwrap();
    assert_eq!(response.0.status, "synced");
    assert_eq!(response.0.last_synced, Some(42));
}
