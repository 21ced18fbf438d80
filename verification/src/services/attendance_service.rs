//! Attendance rows: direct CRUD, plus the two bulk operations the lesson
//! service's synchronizer is built from — creating one fresh row per current
//! group member, and clearing a lesson's rows.
use vstd::prelude::*;
use crate::error::AppError;
use crate::models::attendance::{
    Attendance, AttendanceWithRelations, NewAttendance, UpdateAttendance,
};
use crate::repositories::attendance_repository::{
    spec_all_joinable, spec_apply_attendance_update, spec_attendance_with_relations,
    spec_batch_create_ok, spec_joinable, AttendanceRepository,
};
use crate::store::{
    attendance_id_of, attendance_rows_for, group_students, has_id, idx_with_id, lesson_id_of,
    row_with_id, student_id_of, Database,
};

verus! {

/// When the synchronizer's bulk insert succeeds: the id space can seat one
/// row per member, and, if there is any member at all, the lesson exists.
pub open spec fn spec_group_rows_ok(db: Database, lesson_id: i32, group_id: i32) -> bool {
    let members = group_students(db.students@, group_id);
    &&& db.next_attendance_id + members.len() <= i32::MAX
    &&& members.len() > 0 ==> has_id(db.lessons@, lesson_id_of(), lesson_id as int)
}

pub struct AttendanceService;

impl AttendanceService {
    /// Creates one attendance row directly.
    pub fn create(db: &mut Database, new_attendance: NewAttendance) -> (r: Result<
        AttendanceWithRelations,
        AppError,
    >)
        requires
            old(db).wf(),
        ensures
            final(db).wf(),
            Database::only_attendances_changed(*old(db), *final(db)),
            r is Ok <==> spec_batch_create_ok(*old(db), seq![new_attendance]),
            r matches Ok(ar) ==> ({
                &&& ar.attendance == (Attendance {
                    id: old(db).next_attendance_id,
                    student_id: new_attendance.student_id,
                    lesson_id: new_attendance.lesson_id,
                    is_present: new_attendance.is_present,
                    skip_reason: new_attendance.skip_reason,
                })
                &&& ar == spec_attendance_with_relations(*old(db), ar.attendance)
                &&& final(db).attendances@ == old(db).attendances@.push(ar.attendance)
            }),
            r matches Err(e) ==> e is Database && *final(db) == *old(db),
    {
        AttendanceRepository::create(db, new_attendance)
    }

    /// The synchronizer's insert half: one fresh row per current member of
    /// the group, in member order, marked absent with no skip reason.
    #[verifier::loop_isolation(false)]
    pub fn create_attendances_for_group(
        db: &mut Database,
        lesson_id: i32,
        student_group_id: i32,
    ) -> (r: Result<Vec<AttendanceWithRelations>, AppError>)
        requires
            old(db).wf(),
        ensures
            final(db).wf(),
            Database::only_attendances_changed(*old(db), *final(db)),
            r is Ok <==> spec_group_rows_ok(*old(db), lesson_id, student_group_id),
            r matches Ok(ars) ==> ({
                let members = group_students(old(db).students@, student_group_id);
                let added = attendance_rows_for(
                    members,
                    lesson_id,
                    old(db).next_attendance_id as int,
                );
                &&& final(db).attendances@ == old(db).attendances@ + added
                &&& final(db).next_attendance_id == old(db).next_attendance_id + members.len()
                &&& ars@.len() == added.len()
                &&& forall|i: int|
                    0 <= i < ars@.len() ==> #[trigger] ars@[i] == spec_attendance_with_relations(
                        *old(db),
                        added[i],
                    )
            }),
            r matches Err(e) ==> e is Database && *final(db) == *old(db),
    {
        let members = crate::services::student_service::StudentService::get_students_from_group(
            db,
            student_group_id,
        )?;
        let ghost members_spec = group_students(db.students@, student_group_id);
        let mut new_attendances: Vec<NewAttendance> = Vec::new();
        let mut k: usize = 0;
        let cnt = members.len();
        while k < cnt
            invariant
                k <= cnt,
                cnt == members@.len(),
                new_attendances@.len() == k,
                forall|i: int|
                    0 <= i < k ==> #[trigger] new_attendances@[i] == (NewAttendance {
                        student_id: members_spec[i].id,
                        lesson_id,
                        is_present: false,
                        skip_reason: None,
                    }),
            decreases cnt - k,
        {
            let new_attendance = NewAttendance {
                student_id: members[k].student.id,
                lesson_id,
                is_present: false,
                skip_reason: None,
            };
            new_attendances.push(new_attendance);
            k += 1;
        }
        proof {
            let members_all = group_students(db.students@, student_group_id);
            crate::store::lemma_group_students_members(db.students@, student_group_id);
            if spec_group_rows_ok(*db, lesson_id, student_group_id) {
                assert forall|i: int| 0 <= i < new_attendances@.len() implies {
                    &&& has_id(
                        db.students@,
                        student_id_of(),
                        (#[trigger] new_attendances@[i]).student_id as int,
                    )
                    &&& has_id(db.lessons@, lesson_id_of(), new_attendances@[i].lesson_id as int)
                } by {
                    assert(db.students@.contains(members_all[i]));
                    let w = choose|w: int|
                        0 <= w < db.students@.len() && db.students@[w] == members_all[i];
                    assert(has_id(db.students@, student_id_of(), members_all[i].id as int));
                }
                assert(spec_batch_create_ok(*db, new_attendances@));
            } else {
                if db.next_attendance_id + members_all.len() > i32::MAX {
                    assert(!spec_batch_create_ok(*db, new_attendances@));
                } else {
                    assert(members_all.len() > 0 && !has_id(
                        db.lessons@,
                        lesson_id_of(),
                        lesson_id as int,
                    ));
                    assert((new_attendances@[0]).lesson_id == lesson_id);
                    assert(!spec_all_joinable(*db, new_attendances@));
                }
            }
        }
        let created = AttendanceRepository::batch_create(db, new_attendances)?;
        proof {
            let members_all = group_students(old(db).students@, student_group_id);
            let added = attendance_rows_for(
                members_all,
                lesson_id,
                old(db).next_attendance_id as int,
            );
            assert(crate::repositories::attendance_repository::spec_inserted_attendances(
                new_attendances@,
                old(db).next_attendance_id as int,
            ) =~= added);
        }
        Ok(created)
    }

    /// The attendance row with the given id, joined.
    pub fn get(db: &Database, attendance_id: i32) -> (r: Result<AttendanceWithRelations, AppError>)
        requires
            db.wf(),
        ensures
            r is Ok <==> has_id(db.attendances@, attendance_id_of(), attendance_id as int)
                && spec_joinable(
                *db,
                row_with_id(db.attendances@, attendance_id_of(), attendance_id as int),
            ),
            r matches Ok(ar) ==> ar == spec_attendance_with_relations(
                *db,
                row_with_id(db.attendances@, attendance_id_of(), attendance_id as int),
            ),
            r matches Err(e) ==> e matches AppError::NotFound(_),
    {
        AttendanceRepository::get(db, attendance_id)
    }

    /// Every joined row of the given lesson.
    pub fn get_by_lesson_id(db: &Database, lesson_id: i32) -> (r: Result<
        Vec<AttendanceWithRelations>,
        AppError,
    >)
        requires
            db.wf(),
        ensures
            r matches Ok(ars) && ({
                let rows = db.attendances@.filter(
                    |a: Attendance| a.lesson_id == lesson_id && spec_joinable(*db, a),
                );
                &&& ars@.len() == rows.len()
                &&& forall|i: int|
                    0 <= i < ars@.len() ==> #[trigger] ars@[i] == spec_attendance_with_relations(
                        *db,
                        rows[i],
                    )
            }),
    {
        AttendanceRepository::get_by_lesson_id(db, lesson_id)
    }

    /// Applies field updates to the row with that id.
    pub fn update(
        db: &mut Database,
        attendance_id: i32,
        update_attendance: UpdateAttendance,
    ) -> (r: Result<AttendanceWithRelations, AppError>)
        requires
            old(db).wf(),
        ensures
            final(db).wf(),
            Database::only_attendances_changed(*old(db), *final(db)),
            !has_id(old(db).attendances@, attendance_id_of(), attendance_id as int) ==> (
            r matches Err(e) && e matches AppError::NotFound(_) && *final(db) == *old(db)),
            has_id(old(db).attendances@, attendance_id_of(), attendance_id as int) ==> ({
                let updated = spec_apply_attendance_update(
                    row_with_id(old(db).attendances@, attendance_id_of(), attendance_id as int),
                    update_attendance,
                );
                &&& final(db).attendances@ == old(db).attendances@.update(
                    idx_with_id(old(db).attendances@, attendance_id_of(), attendance_id as int),
                    updated,
                )
                &&& spec_joinable(*old(db), updated) ==> (r matches Ok(ar) && ar
                    == spec_attendance_with_relations(*final(db), updated))
                &&& !spec_joinable(*old(db), updated) ==> (r matches Err(e) && e matches AppError::NotFound(_))
            }),
    {
        AttendanceRepository::update(db, attendance_id, update_attendance)
    }

    /// Deletes the row with that id; whether a row was removed.
    pub fn delete(db: &mut Database, attendance_id: i32) -> (r: Result<bool, AppError>)
        requires
            old(db).wf(),
        ensures
            final(db).wf(),
            Database::only_attendances_changed(*old(db), *final(db)),
            final(db).attendances@ == old(db).attendances@.filter(
                |a: Attendance| a.id != attendance_id,
            ),
            r matches Ok(deleted) && deleted == has_id(
                old(db).attendances@,
                attendance_id_of(),
                attendance_id as int,
            ),
    {
        let count = AttendanceRepository::delete(db, attendance_id)?;
        Ok(count > 0)
    }

    /// The synchronizer's delete half: clears every row of the lesson;
    /// whether any row was removed.
    pub fn delete_by_lesson_id(db: &mut Database, lesson_id: i32) -> (r: Result<bool, AppError>)
        requires
            old(db).wf(),
        ensures
            final(db).wf(),
            Database::only_attendances_changed(*old(db), *final(db)),
            final(db).next_attendance_id == old(db).next_attendance_id,
            final(db).attendances@ == old(db).attendances@.filter(
                |a: Attendance| a.lesson_id != lesson_id,
            ),
            r matches Ok(deleted) && deleted == (final(db).attendances@.len() < old(
                db,
            ).attendances@.len()),
    {
        let count = AttendanceRepository::delete_by_lesson_id(db, lesson_id)?;
        Ok(count > 0)
    }
}

} // verus!
