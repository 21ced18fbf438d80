//! Password hashing, authentication against the users table, user CRUD, and
//! direct attendance rows (including the foreign-key refusals).
use school_schedule::auth::AuthBackend;
use school_schedule::date::Date;
use school_schedule::error::AppError;
use school_schedule::models::attendance::{NewAttendance, UpdateAttendance};
use school_schedule::models::lesson::NewLesson;
use school_schedule::models::student::NewStudent;
use school_schedule::models::user::{Credentials, NewUser, PermissionRole, UpdateUser};
use school_schedule::services::attendance_service::AttendanceService;
use school_schedule::services::lesson_service::LessonService;
use school_schedule::services::student_service::StudentService;
use school_schedule::services::user_service::UserService;
use school_schedule::store::Database;

fn date(year: i32, month: u8, day: u8) -> Date {
    Date::new(year, month, day).unwrap()
}

#[test]
fn stored_hash_verifies_the_original_password_only() {
    let creds = Credentials::new("admin", "correct horse battery staple");
    let mut db = Database::new();
    let user = UserService::create(&mut db, NewUser { full_name: None }, creds).unwrap();
    assert!(user.check_password(Credentials::from_form(
        "admin".to_string(),
        "correct horse battery staple".to_string()
    )));
    assert!(!user.check_password(Credentials::from_form(
        "admin".to_string(),
        "wrong password".to_string()
    )));
}

#[test]
fn authenticate_resolves_username_then_password() {
    let mut db = Database::new();
    let creds = Credentials::new("teacher1", "pa55word");
    UserService::create(
        &mut db,
        NewUser { full_name: Some("Sam Writer".to_string()) },
        creds,
    )
    .unwrap();

    let ok = AuthBackend::authenticate(
        &db,
        Credentials::from_form("teacher1".to_string(), "pa55word".to_string()),
    )
    .unwrap();
    assert_eq!(ok.as_ref().map(|u| u.username.as_str()), Some("teacher1"));

    let wrong_password = AuthBackend::authenticate(
        &db,
        Credentials::from_form("teacher1".to_string(), "nope".to_string()),
    )
    .unwrap();
    assert!(wrong_password.is_none());

    let unknown_user = AuthBackend::authenticate(
        &db,
        Credentials::from_form("nobody".to_string(), "pa55word".to_string()),
    )
    .unwrap();
    assert!(unknown_user.is_none());
}

#[test]
fn user_crud_and_session_lookup() {
    let mut db = Database::new();
    let creds = Credentials::new("director", "hunter2hunter2");
    let user = UserService::create(&mut db, NewUser { full_name: None }, creds).unwrap();
    assert_eq!(user.id, 1);
    assert!(matches!(user.role, PermissionRole::User));

    let fetched = AuthBackend::get_user(&db, user.id).unwrap().unwrap();
    assert_eq!(fetched.username, "director");

    let promoted = UserService::update(
        &mut db,
        user.id,
        UpdateUser {
            username: None,
            role: Some(PermissionRole::Director),
            full_name: Some("The Director".to_string()),
        },
    )
    .unwrap();
    assert!(matches!(promoted.role, PermissionRole::Director));
    assert_eq!(promoted.full_name.as_deref(), Some("The Director"));
    // The stored hash survives updates: the password still verifies.
    assert!(promoted.check_password(Credentials::from_form(
        "director".to_string(),
        "hunter2hunter2".to_string()
    )));

    assert!(UserService::delete(&mut db, user.id).unwrap());
    assert!(AuthBackend::get_user(&db, user.id).unwrap().is_none());
    assert!(matches!(UserService::get(&db, user.id), Err(AppError::NotFound(_))));
}

#[test]
fn direct_attendance_rows_uphold_foreign_keys() {
    let mut db = Database::new();
    let student = StudentService::create(
        &mut db,
        NewStudent {
            name: "solo".to_string(),
            birth_date: date(2012, 5, 5),
            parent_id: None,
            student_group_id: None,
        },
    )
    .unwrap();
    let lesson = LessonService::create(
        &mut db,
        NewLesson {
            topic: "chess".to_string(),
            scheduled_at: date(2024, 9, 20),
            student_group_id: None,
        },
    )
    .unwrap();

    // A row against a missing lesson or student is refused.
    let bad_lesson = AttendanceService::create(
        &mut db,
        NewAttendance {
            student_id: student.student.id,
            lesson_id: 999,
            is_present: false,
            skip_reason: None,
        },
    );
    assert!(matches!(bad_lesson, Err(AppError::Database(_))));
    let bad_student = AttendanceService::create(
        &mut db,
        NewAttendance {
            student_id: 999,
            lesson_id: lesson.lesson.id,
            is_present: false,
            skip_reason: None,
        },
    );
    assert!(matches!(bad_student, Err(AppError::Database(_))));

    // A valid row lands, joined with both sides.
    let row = AttendanceService::create(
        &mut db,
        NewAttendance {
            student_id: student.student.id,
            lesson_id: lesson.lesson.id,
            is_present: false,
            skip_reason: None,
        },
    )
    .unwrap();
    assert_eq!(row.student.name, "solo");
    assert_eq!(row.lesson.topic, "chess");

    // Marking presence and giving a reason.
    let marked = AttendanceService::update(
        &mut db,
        row.attendance.id,
        UpdateAttendance { is_present: Some(true), skip_reason: None },
    )
    .unwrap();
    assert!(marked.attendance.is_present);
    assert_eq!(marked.attendance.skip_reason, None);
    let excused = AttendanceService::update(
        &mut db,
        row.attendance.id,
        UpdateAttendance { is_present: Some(false), skip_reason: Some("ill".to_string()) },
    )
    .unwrap();
    assert_eq!(excused.attendance.skip_reason.as_deref(), Some("ill"));

    let fetched = AttendanceService::get(&db, row.attendance.id).unwrap();
    assert_eq!(fetched.attendance, excused.attendance);

    assert!(AttendanceService::delete(&mut db, row.attendance.id).unwrap());
    assert!(matches!(
        AttendanceService::get(&db, row.attendance.id),
        Err(AppError::NotFound(_))
    ));
}

#[test]
fn clearing_a_lessons_rows_reports_whether_any_existed() {
    let mut db = Database::new();
    let lesson = LessonService::create(
        &mut db,
        NewLesson {
            topic: "empty".to_string(),
            scheduled_at: date(2024, 9, 21),
            student_group_id: None,
        },
    )
    .unwrap();
    assert!(!AttendanceService::delete_by_lesson_id(&mut db, lesson.lesson.id).unwrap());

    let student = StudentService::create(
        &mut db,
        NewStudent {
            name: "present".to_string(),
            birth_date: date(2011, 1, 1),
            parent_id: None,
            student_group_id: None,
        },
    )
    .unwrap();
    AttendanceService::create(
        &mut db,
        NewAttendance {
            student_id: student.student.id,
            lesson_id: lesson.lesson.id,
            is_present: true,
            skip_reason: None,
        },
    )
    .unwrap();
    assert!(AttendanceService::delete_by_lesson_id(&mut db, lesson.lesson.id).unwrap());
    assert!(AttendanceService::get_by_lesson_id(&db, lesson.lesson.id).unwrap().is_empty());
}
