//! Error mapping, the delete response bodies, single-row extraction, paging
//! defaults, and date validity.
use school_schedule::date::Date;
use school_schedule::error::AppError;
use school_schedule::pagination::{default_page, default_page_size};
use school_schedule::repositories::single_result;
use school_schedule::responses::delete_response_body;
use school_schedule::services::parent_service::ParentService;
use school_schedule::store::Database;

#[test]
fn every_error_kind_maps_to_its_status_code() {
    let detail = || "detail".to_string();
    assert_eq!(AppError::BadRequest(detail()).status_code(), 400);
    assert_eq!(AppError::NotFound(detail()).status_code(), 404);
    assert_eq!(AppError::InternalServerError(detail()).status_code(), 500);
    assert_eq!(AppError::Forbidden(detail()).status_code(), 403);
    assert_eq!(AppError::Unauthorized(detail()).status_code(), 401);
    assert_eq!(AppError::Database(detail()).status_code(), 500);
    assert_eq!(AppError::Pool(detail()).status_code(), 500);
    assert_eq!(AppError::Multipart(detail()).status_code(), 500);
    assert_eq!(AppError::IO(detail()).status_code(), 500);
}

#[test]
fn client_messages_are_generic_and_never_echo_the_detail() {
    let secret = || "SECRET-REDACTED".to_string();
    assert_eq!(AppError::BadRequest(secret()).message(), "Bad request");
    assert_eq!(AppError::NotFound(secret()).message(), "Resource not found");
    assert_eq!(AppError::InternalServerError(secret()).message(), "Internal server error");
    assert_eq!(AppError::Forbidden(secret()).message(), "Forbidden access");
    assert_eq!(AppError::Unauthorized(secret()).message(), "Unauthorized access");
    assert_eq!(AppError::Database(secret()).message(), "Database error occurred");
    assert_eq!(AppError::Pool(secret()).message(), "Connection pool error occurred");
    assert_eq!(AppError::Multipart(secret()).message(), "Multipart error occurred");
    assert_eq!(AppError::IO(secret()).message(), "I/O error occurred");
}

#[test]
fn deleting_something_missing_is_a_success_with_a_not_found_body() {
    // The delete endpoints answer 200 either way; only the body differs.
    let mut db = Database::new();
    let deleted = ParentService::delete(&mut db, 41).unwrap();
    assert!(!deleted);
    assert_eq!(delete_response_body("Parent", deleted), "Parent not found");
    assert_eq!(delete_response_body("Lesson", false), "Lesson not found");
    assert_eq!(delete_response_body("Parent", true), "Successfully deleted");
}

#[test]
fn single_result_takes_the_first_row_or_reports_not_found() {
    assert_eq!(single_result(vec![3, 4, 5]).unwrap(), 3);
    match single_result(Vec::<i32>::new()) {
        Err(AppError::NotFound(msg)) => assert_eq!(msg, "Record not found"),
        _ => panic!("expected NotFound"),
    }
}

#[test]
fn paging_defaults() {
    assert_eq!(default_page(), 1);
    assert_eq!(default_page_size(), 25);
}

#[test]
fn date_validity() {
    assert!(Date::new(2024, 2, 29).is_some());
    assert!(Date::new(2023, 2, 29).is_none());
    assert!(Date::new(2000, 2, 29).is_some());
    assert!(Date::new(1900, 2, 29).is_none());
    assert!(Date::new(2024, 4, 31).is_none());
    assert!(Date::new(2024, 12, 31).is_some());
    assert!(Date::new(2024, 0, 1).is_none());
    assert!(Date::new(2024, 13, 1).is_none());
    assert!(Date::new(2024, 1, 0).is_none());
    assert!(Date::new(0, 1, 1).is_none());
    assert_eq!(Date::new(2024, 6, 15), Some(Date { year: 2024, month: 6, day: 15 }));
}
