//! CRUD and joined reads for the plain entities.
use school_schedule::date::Date;
use school_schedule::error::AppError;
use school_schedule::models::lesson::NewLesson;
use school_schedule::models::parent::{NewParent, UpdateParent};
use school_schedule::models::student::{NewStudent, UpdateStudent};
use school_schedule::models::student_group::{NewStudentGroup, UpdateStudentGroup};
use school_schedule::models::teacher::{NewTeacher, UpdateTeacher};
use school_schedule::services::lesson_service::LessonService;
use school_schedule::services::parent_service::ParentService;
use school_schedule::services::student_group_service::StudentGroupService;
use school_schedule::services::student_service::StudentService;
use school_schedule::services::teacher_service::TeacherService;
use school_schedule::store::Database;

fn date(year: i32, month: u8, day: u8) -> Date {
    Date::new(year, month, day).unwrap()
}

#[test]
fn parent_crud_round_trip() {
    let mut db = Database::new();
    let created = ParentService::create(
        &mut db,
        NewParent { name: "Alex".to_string(), additional_info: None },
    )
    .unwrap();
    assert_eq!(created.id, 1);
    assert_eq!(created.name, "Alex");
    assert_eq!(created.additional_info, None);

    let fetched = ParentService::get(&db, 1).unwrap();
    assert_eq!(fetched, created);

    let updated = ParentService::update(
        &mut db,
        1,
        UpdateParent { name: None, additional_info: Some("reachable evenings".to_string()) },
    )
    .unwrap();
    assert_eq!(updated.name, "Alex");
    assert_eq!(updated.additional_info.as_deref(), Some("reachable evenings"));

    assert!(ParentService::delete(&mut db, 1).unwrap());
    assert!(matches!(ParentService::get(&db, 1), Err(AppError::NotFound(_))));
    assert!(!ParentService::delete(&mut db, 1).unwrap());
}

#[test]
fn missing_entities_are_not_found() {
    let mut db = Database::new();
    assert!(matches!(ParentService::get(&db, 7), Err(AppError::NotFound(_))));
    assert!(matches!(TeacherService::get(&db, 7), Err(AppError::NotFound(_))));
    assert!(matches!(StudentService::get(&db, 7), Err(AppError::NotFound(_))));
    assert!(matches!(StudentGroupService::get(&db, 7), Err(AppError::NotFound(_))));
    assert!(matches!(LessonService::get(&db, 7), Err(AppError::NotFound(_))));
    assert!(matches!(
        ParentService::update(&mut db, 7, UpdateParent { name: None, additional_info: None }),
        Err(AppError::NotFound(_))
    ));
}

#[test]
fn teacher_update_keeps_name_when_none() {
    let mut db = Database::new();
    TeacherService::create(&mut db, NewTeacher { name: "Kim".to_string() }).unwrap();
    let same = TeacherService::update(&mut db, 1, UpdateTeacher { name: None }).unwrap();
    assert_eq!(same.name, "Kim");
    let renamed =
        TeacherService::update(&mut db, 1, UpdateTeacher { name: Some("Dr. Kim".to_string()) })
            .unwrap();
    assert_eq!(renamed.name, "Dr. Kim");
}

#[test]
fn student_group_joins_its_teacher() {
    let mut db = Database::new();
    let teacher = TeacherService::create(&mut db, NewTeacher { name: "Sam".to_string() }).unwrap();
    let with_teacher = StudentGroupService::create(
        &mut db,
        NewStudentGroup {
            direction: Some("maths".to_string()),
            free_spots: 12,
            teacher_id: Some(teacher.id),
        },
    )
    .unwrap();
    assert_eq!(with_teacher.teacher.as_ref().map(|t| t.name.as_str()), Some("Sam"));

    // A dangling teacher link joins to nothing.
    let dangling = StudentGroupService::create(
        &mut db,
        NewStudentGroup { direction: None, free_spots: 5, teacher_id: Some(99) },
    )
    .unwrap();
    assert_eq!(dangling.teacher, None);

    let moved = StudentGroupService::update(
        &mut db,
        dangling.student_group.id,
        UpdateStudentGroup { direction: None, free_spots: Some(4), teacher_id: Some(teacher.id) },
    )
    .unwrap();
    assert_eq!(moved.student_group.free_spots, 4);
    assert_eq!(moved.teacher.as_ref().map(|t| t.id), Some(teacher.id));

    assert!(StudentGroupService::delete(&mut db, moved.student_group.id).unwrap());
}

#[test]
fn student_joins_parent_and_group() {
    let mut db = Database::new();
    let parent = ParentService::create(
        &mut db,
        NewParent { name: "Robin".to_string(), additional_info: None },
    )
    .unwrap();
    let group = StudentGroupService::create(
        &mut db,
        NewStudentGroup { direction: None, free_spots: 8, teacher_id: None },
    )
    .unwrap();
    let student = StudentService::create(
        &mut db,
        NewStudent {
            name: "Nikita".to_string(),
            birth_date: date(2012, 3, 14),
            parent_id: Some(parent.id),
            student_group_id: Some(group.student_group.id),
        },
    )
    .unwrap();
    assert_eq!(student.parent.as_ref().map(|p| p.id), Some(parent.id));
    assert_eq!(student.student_group.as_ref().map(|g| g.id), Some(group.student_group.id));

    let detached = StudentService::update(
        &mut db,
        student.student.id,
        UpdateStudent {
            name: None,
            birth_date: Some(date(2012, 3, 15)),
            parent_id: None,
            student_group_id: None,
        },
    )
    .unwrap();
    // None fields keep their values: the links stay.
    assert_eq!(detached.student.parent_id, Some(parent.id));
    assert_eq!(detached.student.birth_date, date(2012, 3, 15));

    assert!(StudentService::delete(&mut db, student.student.id).unwrap());
    assert!(StudentService::get_students_from_group(&db, group.student_group.id)
        .unwrap()
        .is_empty());
}

#[test]
fn group_membership_reads_current_assignment() {
    let mut db = Database::new();
    let g1 = StudentGroupService::create(
        &mut db,
        NewStudentGroup { direction: None, free_spots: 8, teacher_id: None },
    )
    .unwrap()
    .student_group
    .id;
    let g2 = StudentGroupService::create(
        &mut db,
        NewStudentGroup { direction: None, free_spots: 8, teacher_id: None },
    )
    .unwrap()
    .student_group
    .id;
    for i in 0..3 {
        StudentService::create(
            &mut db,
            NewStudent {
                name: format!("member {i}"),
                birth_date: date(2010, 1, 1),
                parent_id: None,
                student_group_id: Some(g1),
            },
        )
        .unwrap();
    }
    assert_eq!(StudentService::get_students_from_group(&db, g1).unwrap().len(), 3);
    assert!(StudentService::get_students_from_group(&db, g2).unwrap().is_empty());

    // Moving a student moves the membership.
    StudentService::update(
        &mut db,
        1,
        UpdateStudent {
            name: None,
            birth_date: None,
            parent_id: None,
            student_group_id: Some(g2),
        },
    )
    .unwrap();
    assert_eq!(StudentService::get_students_from_group(&db, g1).unwrap().len(), 2);
    assert_eq!(StudentService::get_students_from_group(&db, g2).unwrap().len(), 1);
}

#[test]
fn lessons_listed_by_group() {
    let mut db = Database::new();
    let gid = StudentGroupService::create(
        &mut db,
        NewStudentGroup { direction: None, free_spots: 8, teacher_id: None },
    )
    .unwrap()
    .student_group
    .id;
    for i in 0..2 {
        LessonService::create(
            &mut db,
            NewLesson {
                topic: format!("lesson {i}"),
                scheduled_at: date(2024, 9, 1),
                student_group_id: Some(gid),
            },
        )
        .unwrap();
    }
    LessonService::create(
        &mut db,
        NewLesson {
            topic: "unbound".to_string(),
            scheduled_at: date(2024, 9, 1),
            student_group_id: None,
        },
    )
    .unwrap();
    let listed = LessonService::get_lessons_by_group_id(&db, gid).unwrap();
    assert_eq!(listed.len(), 2);
    assert!(listed.iter().all(|l| l.student_group_id == Some(gid)));
}
