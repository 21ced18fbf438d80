//! The lesson/attendance synchronizer, end to end: creation, group
//! reassignment, unbinding, and the membership-freshness rule.
use school_schedule::date::Date;
use school_schedule::models::lesson::{NewLesson, UpdateLesson};
use school_schedule::models::student::NewStudent;
use school_schedule::models::student_group::NewStudentGroup;
use school_schedule::services::attendance_service::AttendanceService;
use school_schedule::services::lesson_service::LessonService;
use school_schedule::services::student_group_service::StudentGroupService;
use school_schedule::services::student_service::StudentService;
use school_schedule::store::Database;

fn date(year: i32, month: u8, day: u8) -> Date {
    Date::new(year, month, day).unwrap()
}

fn group_with_members(db: &mut Database, count: usize) -> i32 {
    let group = StudentGroupService::create(
        db,
        NewStudentGroup { direction: None, free_spots: 10, teacher_id: None },
    )
    .unwrap();
    let gid = group.student_group.id;
    for i in 0..count {
        StudentService::create(
            db,
            NewStudent {
                name: format!("student {i}"),
                birth_date: date(2010, 1, 1),
                parent_id: None,
                student_group_id: Some(gid),
            },
        )
        .unwrap();
    }
    gid
}

#[test]
fn create_lesson_with_group_creates_one_row_per_member() {
    let mut db = Database::new();
    let gid = group_with_members(&mut db, 2);
    let lesson = LessonService::create(
        &mut db,
        NewLesson {
            topic: "algebra".to_string(),
            scheduled_at: date(2024, 9, 2),
            student_group_id: Some(gid),
        },
    )
    .unwrap();
    let rows = AttendanceService::get_by_lesson_id(&db, lesson.lesson.id).unwrap();
    assert_eq!(rows.len(), 2);
    assert_eq!(rows[0].attendance.student_id, 1);
    assert_eq!(rows[1].attendance.student_id, 2);
    for row in &rows {
        assert_eq!(row.attendance.lesson_id, lesson.lesson.id);
        assert!(!row.attendance.is_present);
        assert_eq!(row.attendance.skip_reason, None);
    }
}

#[test]
fn create_lesson_without_group_creates_no_rows() {
    let mut db = Database::new();
    group_with_members(&mut db, 3);
    let lesson = LessonService::create(
        &mut db,
        NewLesson {
            topic: "geometry".to_string(),
            scheduled_at: date(2024, 9, 3),
            student_group_id: None,
        },
    )
    .unwrap();
    let rows = AttendanceService::get_by_lesson_id(&db, lesson.lesson.id).unwrap();
    assert!(rows.is_empty());
}

#[test]
fn scenario_bind_unbind_rebind() {
    // Group with members [S1, S2]; lesson bound to it: two absent rows.
    let mut db = Database::new();
    let gid = group_with_members(&mut db, 2);
    let lesson = LessonService::create(
        &mut db,
        NewLesson {
            topic: "history".to_string(),
            scheduled_at: date(2024, 10, 1),
            student_group_id: Some(gid),
        },
    )
    .unwrap();
    let lid = lesson.lesson.id;
    let first_rows = AttendanceService::get_by_lesson_id(&db, lid).unwrap();
    assert_eq!(first_rows.len(), 2);
    assert!(first_rows.iter().all(|r| !r.attendance.is_present));

    // Unbind: every row of the lesson disappears and none is created.
    let unbound = LessonService::update(
        &mut db,
        lid,
        UpdateLesson { topic: None, scheduled_at: None, student_group_id: None },
    )
    .unwrap();
    assert_eq!(unbound.lesson.student_group_id, None);
    assert!(AttendanceService::get_by_lesson_id(&db, lid).unwrap().is_empty());

    // Rebind to the same group: two fresh rows under new ids, absent again.
    let rebound = LessonService::update(
        &mut db,
        lid,
        UpdateLesson { topic: None, scheduled_at: None, student_group_id: Some(gid) },
    )
    .unwrap();
    assert_eq!(rebound.lesson.student_group_id, Some(gid));
    let fresh_rows = AttendanceService::get_by_lesson_id(&db, lid).unwrap();
    assert_eq!(fresh_rows.len(), 2);
    for (fresh, old) in fresh_rows.iter().zip(first_rows.iter()) {
        assert_ne!(fresh.attendance.id, old.attendance.id);
        assert!(!fresh.attendance.is_present);
    }
}

#[test]
fn reassigning_to_other_group_resyncs_rows() {
    let mut db = Database::new();
    let g1 = group_with_members(&mut db, 2);
    let g2 = group_with_members(&mut db, 3);
    let lesson = LessonService::create(
        &mut db,
        NewLesson {
            topic: "physics".to_string(),
            scheduled_at: date(2024, 11, 5),
            student_group_id: Some(g1),
        },
    )
    .unwrap();
    let lid = lesson.lesson.id;
    assert_eq!(AttendanceService::get_by_lesson_id(&db, lid).unwrap().len(), 2);

    let moved = LessonService::update(
        &mut db,
        lid,
        UpdateLesson { topic: None, scheduled_at: None, student_group_id: Some(g2) },
    )
    .unwrap();
    assert_eq!(moved.lesson.student_group_id, Some(g2));
    let rows = AttendanceService::get_by_lesson_id(&db, lid).unwrap();
    assert_eq!(rows.len(), 3);
    // No row references a member of the old group.
    for row in &rows {
        assert_eq!(row.student.student_group_id, Some(g2));
        assert!(!row.attendance.is_present);
    }
}

#[test]
fn update_keeping_group_does_not_refresh_rows() {
    let mut db = Database::new();
    let gid = group_with_members(&mut db, 1);
    let lesson = LessonService::create(
        &mut db,
        NewLesson {
            topic: "music".to_string(),
            scheduled_at: date(2024, 12, 2),
            student_group_id: Some(gid),
        },
    )
    .unwrap();
    let lid = lesson.lesson.id;
    assert_eq!(AttendanceService::get_by_lesson_id(&db, lid).unwrap().len(), 1);

    // Membership shifts after the last synchronization...
    StudentService::create(
        &mut db,
        NewStudent {
            name: "late joiner".to_string(),
            birth_date: date(2011, 6, 15),
            parent_id: None,
            student_group_id: Some(gid),
        },
    )
    .unwrap();

    // ...but an update that keeps the group id leaves the rows untouched.
    let updated = LessonService::update(
        &mut db,
        lid,
        UpdateLesson {
            topic: Some("choir".to_string()),
            scheduled_at: None,
            student_group_id: Some(gid),
        },
    )
    .unwrap();
    assert_eq!(updated.lesson.topic, "choir");
    let rows = AttendanceService::get_by_lesson_id(&db, lid).unwrap();
    assert_eq!(rows.len(), 1);
    // The very same row survived: its id did not change.
    assert_eq!(rows[0].attendance.id, 1);

    // A group change (here: unbind and rebind) picks the new member up.
    LessonService::update(
        &mut db,
        lid,
        UpdateLesson { topic: None, scheduled_at: None, student_group_id: None },
    )
    .unwrap();
    LessonService::update(
        &mut db,
        lid,
        UpdateLesson { topic: None, scheduled_at: None, student_group_id: Some(gid) },
    )
    .unwrap();
    assert_eq!(AttendanceService::get_by_lesson_id(&db, lid).unwrap().len(), 2);
}

#[test]
fn membership_is_read_off_the_assignment_at_query_time() {
    // Membership is the set of students assigned to the group id, evaluated
    // when the synchronizer runs — also when the group row itself is gone.
    let mut db = Database::new();
    let gid = group_with_members(&mut db, 2);
    assert!(StudentGroupService::delete(&mut db, gid).unwrap());
    let lesson = LessonService::create(
        &mut db,
        NewLesson {
            topic: "orphans".to_string(),
            scheduled_at: date(2024, 9, 4),
            student_group_id: Some(gid),
        },
    )
    .unwrap();
    assert_eq!(lesson.student_group, None);
    assert_eq!(AttendanceService::get_by_lesson_id(&db, lesson.lesson.id).unwrap().len(), 2);
}

#[test]
fn deleting_lesson_leaves_rows_orphaned_and_unjoined() {
    let mut db = Database::new();
    let gid = group_with_members(&mut db, 2);
    let lesson = LessonService::create(
        &mut db,
        NewLesson {
            topic: "art".to_string(),
            scheduled_at: date(2024, 9, 9),
            student_group_id: Some(gid),
        },
    )
    .unwrap();
    let lid = lesson.lesson.id;
    assert!(LessonService::delete(&mut db, lid).unwrap());
    // The joined read yields nothing for the orphaned rows.
    assert!(AttendanceService::get_by_lesson_id(&db, lid).unwrap().is_empty());
    // Deleting again finds nothing.
    assert!(!LessonService::delete(&mut db, lid).unwrap());
}
