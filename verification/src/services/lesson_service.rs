//! Lessons, with the attendance synchronizer: a lesson bound to a student
//! group carries exactly one attendance row per current group member. The
//! synchronizer establishes that when a lesson is created, and re-establishes
//! it when an update changes the lesson's group — deleting the old rows
//! wholesale and creating fresh ones for the new group's current members.
//! An update that keeps the group id untouched leaves the rows alone, even
//! if the group's membership has shifted since the last synchronization.
use vstd::prelude::*;
use crate::error::AppError;
use crate::models::attendance::{Attendance, AttendanceWithRelations};
use crate::models::lesson::{Lesson, LessonWithRelations, NewLesson, UpdateLesson};
use crate::repositories::attendance_repository::spec_joinable;
use crate::repositories::lesson_repository::{
    spec_apply_lesson_update, spec_lesson_with_relations, LessonRepository,
};
use crate::services::attendance_service::{spec_group_rows_ok, AttendanceService};
use crate::services::student_service::StudentService;
use crate::store::{
    attendance_rows_for, group_students, has_id, idx_with_id, lemma_filter_all, lemma_filter_none,
    lesson_attendances, lesson_id_of, row_with_id, synced, Database,
};

verus! {

/// When creating a lesson succeeds: the lessons id space is not exhausted,
/// and, if the lesson is bound to a group, the attendance id space can seat
/// one row per current member.
pub open spec fn spec_create_lesson_ok(db: Database, nl: NewLesson) -> bool {
    &&& db.next_lesson_id < i32::MAX
    &&& (nl.student_group_id matches Some(g) ==> db.next_attendance_id + group_students(
        db.students@,
        g,
    ).len() <= i32::MAX)
}

/// When updating a lesson succeeds: the lesson exists, and, if the update
/// moves it to a different, present group, the attendance id space can seat
/// one row per current member of that group.
pub open spec fn spec_update_lesson_ok(db: Database, lesson_id: i32, ul: UpdateLesson) -> bool {
    &&& has_id(db.lessons@, lesson_id_of(), lesson_id as int)
    &&& ({
        let cur = row_with_id(db.lessons@, lesson_id_of(), lesson_id as int);
        cur.student_group_id != ul.student_group_id ==> (ul.student_group_id matches Some(g)
            ==> db.next_attendance_id + group_students(db.students@, g).len() <= i32::MAX)
    })
}

pub struct LessonService;

impl LessonService {
    /// Whether two group assignments are the same; the synchronizer runs
    /// exactly when they are not.
    fn same_group(a: Option<i32>, b: Option<i32>) -> (r: bool)
        ensures
            r == (a == b),
    {
        match (a, b) {
            (None, None) => true,
            (Some(x), Some(y)) => x == y,
            _ => false,
        }
    }

    /// Creates a lesson and, when it is bound to a group, one attendance row
    /// per current member of that group — all in one step: on failure the
    /// store is untouched.
    pub fn create(db: &mut Database, new_lesson: NewLesson) -> (r: Result<
        LessonWithRelations,
        AppError,
    >)
        requires
            old(db).wf(),
        ensures
            final(db).wf(),
            Database::only_lessons_and_attendances_changed(*old(db), *final(db)),
            r is Ok <==> spec_create_lesson_ok(*old(db), new_lesson),
            r matches Err(e) ==> e is Database && *final(db) == *old(db),
            r matches Ok(lr) ==> ({
                &&& lr.lesson == (Lesson {
                    id: old(db).next_lesson_id,
                    topic: new_lesson.topic,
                    scheduled_at: new_lesson.scheduled_at,
                    student_group_id: new_lesson.student_group_id,
                })
                &&& lr == spec_lesson_with_relations(*old(db), lr.lesson)
                &&& final(db).lessons@ == old(db).lessons@.push(lr.lesson)
                &&& final(db).next_lesson_id == old(db).next_lesson_id + 1
                &&& new_lesson.student_group_id is None ==> Database::attendances_unchanged(
                    *old(db),
                    *final(db),
                )
                &&& new_lesson.student_group_id matches Some(g) ==> ({
                    &&& final(db).attendances@ == old(db).attendances@ + attendance_rows_for(
                        group_students(old(db).students@, g),
                        lr.lesson.id,
                        old(db).next_attendance_id as int,
                    )
                    &&& synced(final(db).attendances@, final(db).students@, lr.lesson.id, g)
                })
            }),
    {
        if db.next_lesson_id == i32::MAX {
            return Err(AppError::Database("lessons: id space exhausted".to_owned()));
        }
        if let Some(g) = new_lesson.student_group_id {
            let members = StudentService::get_students_from_group(db, g)?;
            let headroom = i32::MAX - db.next_attendance_id;
            if members.len() > headroom as usize {
                return Err(AppError::Database("attendances: id space exhausted".to_owned()));
            }
        }
        let lesson_response = LessonRepository::create(db, new_lesson)?;
        let lesson_id = lesson_response.lesson.id;
        if let Some(g) = lesson_response.lesson.student_group_id {
            proof {
                assert(db.lessons@[db.lessons@.len() - 1].id == lesson_id);
                assert(has_id(db.lessons@, lesson_id_of(), lesson_id as int));
                assert(spec_group_rows_ok(*db, lesson_id, g));
            }
            AttendanceService::create_attendances_for_group(db, lesson_id, g)?;
            proof {
                let members = group_students(old(db).students@, g);
                let added = attendance_rows_for(members, lesson_id, old(db).next_attendance_id as int);
                let keep = |a: Attendance| a.lesson_id == lesson_id;
                assert(final(db).attendances@ == old(db).attendances@ + added);
                Seq::filter_distributes_over_add(old(db).attendances@, added, keep);
                assert forall|i: int| 0 <= i < old(db).attendances@.len() implies !keep(
                    #[trigger] old(db).attendances@[i],
                ) by {
                    assert(old(db).attendances@[i].lesson_id < old(db).next_lesson_id);
                }
                lemma_filter_none(old(db).attendances@, keep);
                assert forall|i: int| 0 <= i < added.len() implies keep(#[trigger] added[i]) by {}
                lemma_filter_all(added, keep);
                assert(lesson_attendances(final(db).attendances@, lesson_id) =~= added);
                assert(synced(final(db).attendances@, final(db).students@, lesson_id, g));
            }
        }
        Ok(lesson_response)
    }

    /// The lesson with the given id joined with its group.
    pub fn get(db: &Database, lesson_id: i32) -> (r: Result<LessonWithRelations, AppError>)
        requires
            db.wf(),
        ensures
            r is Ok <==> has_id(db.lessons@, lesson_id_of(), lesson_id as int),
            r matches Ok(lr) ==> lr == spec_lesson_with_relations(
                *db,
                row_with_id(db.lessons@, lesson_id_of(), lesson_id as int),
            ),
            r matches Err(e) ==> e matches AppError::NotFound(_),
    {
        LessonRepository::get(db, lesson_id)
    }

    /// Every lesson currently bound to the given group, in table order.
    pub fn get_lessons_by_group_id(db: &Database, student_group_id: i32) -> (r: Result<
        Vec<Lesson>,
        AppError,
    >)
        requires
            db.wf(),
        ensures
            r matches Ok(ls) && ls@ == db.lessons@.filter(
                |l: Lesson| l.student_group_id == Some(student_group_id),
            ),
    {
        LessonRepository::get_lessons_by_group_id(db, student_group_id)
    }

    /// Every joined attendance row of the given lesson.
    pub fn get_attendances(db: &Database, lesson_id: i32) -> (r: Result<
        Vec<AttendanceWithRelations>,
        AppError,
    >)
        requires
            db.wf(),
        ensures
            r matches Ok(ars) && ({
                let rows = db.attendances@.filter(
                    |a: Attendance| a.lesson_id == lesson_id && spec_joinable(*db, a),
                );
                &&& ars@.len() == rows.len()
                &&& forall|i: int|
                    0 <= i < ars@.len() ==> (#[trigger] ars@[i]).attendance == rows[i]
            }),
    {
        AttendanceService::get_by_lesson_id(db, lesson_id)
    }

    /// Updates a lesson. When the update changes the group assignment — to a
    /// different group, or to and from "no group" — the lesson's attendance
    /// rows are deleted wholesale and, if a new group is given, recreated for
    /// its current members. An update that keeps the group id leaves the
    /// attendance rows untouched.
    pub fn update(db: &mut Database, lesson_id: i32, update_lesson: UpdateLesson) -> (r: Result<
        LessonWithRelations,
        AppError,
    >)
        requires
            old(db).wf(),
        ensures
            final(db).wf(),
            Database::only_lessons_and_attendances_changed(*old(db), *final(db)),
            r is Ok <==> spec_update_lesson_ok(*old(db), lesson_id, update_lesson),
            !has_id(old(db).lessons@, lesson_id_of(), lesson_id as int) ==> (r matches Err(e)
                && e matches AppError::NotFound(_) && *final(db) == *old(db)),
            r matches Err(e) ==> *final(db) == *old(db),
            r matches Ok(lr) ==> ({
                let cur = row_with_id(old(db).lessons@, lesson_id_of(), lesson_id as int);
                &&& lr.lesson == spec_apply_lesson_update(cur, update_lesson)
                &&& lr == spec_lesson_with_relations(*old(db), lr.lesson)
                &&& final(db).lessons@ == old(db).lessons@.update(
                    idx_with_id(old(db).lessons@, lesson_id_of(), lesson_id as int),
                    lr.lesson,
                )
                &&& final(db).next_lesson_id == old(db).next_lesson_id
                &&& cur.student_group_id == update_lesson.student_group_id
                    ==> Database::attendances_unchanged(*old(db), *final(db))
                &&& cur.student_group_id != update_lesson.student_group_id ==> ({
                    let cleared = old(db).attendances@.filter(
                        |a: Attendance| a.lesson_id != lesson_id,
                    );
                    &&& update_lesson.student_group_id is None ==> ({
                        &&& final(db).attendances@ == cleared
                        &&& lesson_attendances(final(db).attendances@, lesson_id)
                            == Seq::<Attendance>::empty()
                    })
                    &&& update_lesson.student_group_id matches Some(g) ==> ({
                        &&& final(db).attendances@ == cleared + attendance_rows_for(
                            group_students(old(db).students@, g),
                            lesson_id,
                            old(db).next_attendance_id as int,
                        )
                        &&& synced(final(db).attendances@, final(db).students@, lesson_id, g)
                    })
                })
            }),
    {
        let current = match LessonRepository::find(db, lesson_id) {
            Some(l) => l,
            None => {
                return Err(AppError::NotFound("Lesson not found".to_owned()));
            },
        };
        let group_changed = !Self::same_group(
            current.student_group_id,
            update_lesson.student_group_id,
        );
        if group_changed {
            if let Some(g) = update_lesson.student_group_id {
                let members = StudentService::get_students_from_group(db, g)?;
                let headroom = i32::MAX - db.next_attendance_id;
                if members.len() > headroom as usize {
                    return Err(AppError::Database("attendances: id space exhausted".to_owned()));
                }
            }
            AttendanceService::delete_by_lesson_id(db, lesson_id)?;
            proof {
                broadcast use vstd::seq_lib::group_filter_ensures;

                let keep = |a: Attendance| a.lesson_id == lesson_id;
                let not_lesson = |a: Attendance| a.lesson_id != lesson_id;
                let cleared = old(db).attendances@.filter(not_lesson);
                assert(db.attendances@ == cleared);
                assert forall|i: int| 0 <= i < cleared.len() implies !keep(
                    #[trigger] cleared[i],
                ) by {
                    assert(not_lesson(cleared[i]));
                }
                lemma_filter_none(cleared, keep);
            }
            if let Some(g) = update_lesson.student_group_id {
                proof {
                    assert(has_id(db.lessons@, lesson_id_of(), lesson_id as int));
                    assert(spec_group_rows_ok(*db, lesson_id, g));
                }
                let ghost before_add = db.attendances@;
                AttendanceService::create_attendances_for_group(db, lesson_id, g)?;
                proof {
                    let members = group_students(old(db).students@, g);
                    let added = attendance_rows_for(
                        members,
                        lesson_id,
                        old(db).next_attendance_id as int,
                    );
                    let keep = |a: Attendance| a.lesson_id == lesson_id;
                    Seq::filter_distributes_over_add(before_add, added, keep);
                    assert forall|i: int| 0 <= i < added.len() implies keep(
                        #[trigger] added[i],
                    ) by {}
                    lemma_filter_all(added, keep);
                    assert(lesson_attendances(db.attendances@, lesson_id) =~= added);
                }
            }
        }
        let updated = LessonRepository::update(db, lesson_id, update_lesson)?;
        proof {
            if current.student_group_id != updated.lesson.student_group_id {
                match updated.lesson.student_group_id {
                    Some(gg) => {
                        assert(synced(db.attendances@, db.students@, lesson_id, gg));
                    },
                    None => {},
                }
            }
        }
        Ok(updated)
    }

    /// Deletes the lesson row; whether a row was removed. Attendance rows of
    /// the lesson are left as they are.
    pub fn delete(db: &mut Database, lesson_id: i32) -> (r: Result<bool, AppError>)
        requires
            old(db).wf(),
        ensures
            final(db).wf(),
            Database::only_lessons_changed(*old(db), *final(db)),
            final(db).lessons@ == old(db).lessons@.filter(|l: Lesson| l.id != lesson_id),
            r matches Ok(deleted) && deleted == has_id(
                old(db).lessons@,
                lesson_id_of(),
                lesson_id as int,
            ),
    {
        let count = LessonRepository::delete(db, lesson_id)?;
        Ok(count > 0)
    }
}

} // verus!
