//! Student groups: create, read, update, delete, each read joined with the
//! group's teacher.
use vstd::prelude::*;
use crate::error::AppError;
use crate::models::student_group::{
    NewStudentGroup, StudentGroup, StudentGroupWithRelations, UpdateStudentGroup,
};
use crate::repositories::student_group_repository::{
    spec_apply_student_group_update, spec_group_with_relations, StudentGroupRepository,
};
use crate::store::{has_id, idx_with_id, row_with_id, student_group_id_of, Database};

verus! {

pub struct StudentGroupService;

impl StudentGroupService {
    /// Creates a group; the new row joined with its teacher.
    pub fn create(db: &mut Database, new_student_group: NewStudentGroup) -> (r: Result<
        StudentGroupWithRelations,
        AppError,
    >)
        requires
            old(db).wf(),
        ensures
            final(db).wf(),
            Database::only_student_groups_changed(*old(db), *final(db)),
            old(db).next_student_group_id < i32::MAX ==> ({
                &&& r matches Ok(gr)
                &&& gr.student_group == (StudentGroup {
                    id: old(db).next_student_group_id,
                    direction: new_student_group.direction,
                    free_spots: new_student_group.free_spots,
                    teacher_id: new_student_group.teacher_id,
                })
                &&& gr == spec_group_with_relations(*old(db), gr.student_group)
                &&& final(db).student_groups@ == old(db).student_groups@.push(gr.student_group)
            }),
            old(db).next_student_group_id == i32::MAX ==> (r matches Err(e) && e is Database
                && *final(db) == *old(db)),
    {
        StudentGroupRepository::create(db, new_student_group)
    }

    /// The group with the given id joined with its teacher.
    pub fn get(db: &Database, student_group_id: i32) -> (r: Result<
        StudentGroupWithRelations,
        AppError,
    >)
        requires
            db.wf(),
        ensures
            r is Ok <==> has_id(db.student_groups@, student_group_id_of(), student_group_id as int),
            r matches Ok(gr) ==> gr == spec_group_with_relations(
                *db,
                row_with_id(db.student_groups@, student_group_id_of(), student_group_id as int),
            ),
            r matches Err(e) ==> e matches AppError::NotFound(_),
    {
        StudentGroupRepository::get(db, student_group_id)
    }

    /// Applies field updates to the group with that id.
    pub fn update(
        db: &mut Database,
        student_group_id: i32,
        update_student_group: UpdateStudentGroup,
    ) -> (r: Result<StudentGroupWithRelations, AppError>)
        requires
            old(db).wf(),
        ensures
            final(db).wf(),
            Database::only_student_groups_changed(*old(db), *final(db)),
            r is Ok <==> has_id(
                old(db).student_groups@,
                student_group_id_of(),
                student_group_id as int,
            ),
            r matches Ok(gr) ==> ({
                &&& gr.student_group == spec_apply_student_group_update(
                    row_with_id(
                        old(db).student_groups@,
                        student_group_id_of(),
                        student_group_id as int,
                    ),
                    update_student_group,
                )
                &&& gr == spec_group_with_relations(*old(db), gr.student_group)
                &&& final(db).student_groups@ == old(db).student_groups@.update(
                    idx_with_id(
                        old(db).student_groups@,
                        student_group_id_of(),
                        student_group_id as int,
                    ),
                    gr.student_group,
                )
            }),
            r matches Err(e) ==> e matches AppError::NotFound(_) && *final(db) == *old(db),
    {
        StudentGroupRepository::update(db, student_group_id, update_student_group)
    }

    /// Deletes the group with that id; whether a row was removed.
    pub fn delete(db: &mut Database, student_group_id: i32) -> (r: Result<bool, AppError>)
        requires
            old(db).wf(),
        ensures
            final(db).wf(),
            Database::only_student_groups_changed(*old(db), *final(db)),
            final(db).student_groups@ == old(db).student_groups@.filter(
                |g: StudentGroup| g.id != student_group_id,
            ),
            r matches Ok(deleted) && deleted == has_id(
                old(db).student_groups@,
                student_group_id_of(),
                student_group_id as int,
            ),
    {
        let count = StudentGroupRepository::delete(db, student_group_id)?;
        Ok(count > 0)
    }
}

} // verus!
