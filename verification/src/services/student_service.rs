//! Students: create, read (alone or by group), update, delete.
use vstd::prelude::*;
use crate::error::AppError;
use crate::models::student::{NewStudent, Student, StudentWithRelations, UpdateStudent};
use crate::repositories::student_repository::{
    spec_apply_student_update, spec_student_with_relations, StudentRepository,
};
use crate::store::{group_students, has_id, idx_with_id, row_with_id, student_id_of, Database};

verus! {

pub struct StudentService;

impl StudentService {
    /// Creates a student; the new row joined with its relations.
    pub fn create(db: &mut Database, new_student: NewStudent) -> (r: Result<
        StudentWithRelations,
        AppError,
    >)
        requires
            old(db).wf(),
        ensures
            final(db).wf(),
            Database::only_students_changed(*old(db), *final(db)),
            old(db).next_student_id < i32::MAX ==> ({
                &&& r matches Ok(sr)
                &&& sr.student == (Student {
                    id: old(db).next_student_id,
                    name: new_student.name,
                    birth_date: new_student.birth_date,
                    parent_id: new_student.parent_id,
                    student_group_id: new_student.student_group_id,
                })
                &&& sr == spec_student_with_relations(*old(db), sr.student)
                &&& final(db).students@ == old(db).students@.push(sr.student)
            }),
            old(db).next_student_id == i32::MAX ==> (r matches Err(e) && e is Database
                && *final(db) == *old(db)),
    {
        StudentRepository::create(db, new_student)
    }

    /// The student with the given id joined with their relations.
    pub fn get(db: &Database, student_id: i32) -> (r: Result<StudentWithRelations, AppError>)
        requires
            db.wf(),
        ensures
            r is Ok <==> has_id(db.students@, student_id_of(), student_id as int),
            r matches Ok(sr) ==> sr == spec_student_with_relations(
                *db,
                row_with_id(db.students@, student_id_of(), student_id as int),
            ),
            r matches Err(e) ==> e matches AppError::NotFound(_),
    {
        StudentRepository::get(db, student_id)
    }

    /// The current members of a group, in table order, joined with their
    /// relations.
    pub fn get_students_from_group(db: &Database, student_group_id: i32) -> (r: Result<
        Vec<StudentWithRelations>,
        AppError,
    >)
        requires
            db.wf(),
        ensures
            r matches Ok(rs) && ({
                let members = group_students(db.students@, student_group_id);
                &&& rs@.len() == members.len()
                &&& forall|i: int|
                    0 <= i < rs@.len() ==> #[trigger] rs@[i] == spec_student_with_relations(
                        *db,
                        members[i],
                    )
            }),
    {
        StudentRepository::get_students_by_group_id(db, student_group_id)
    }

    /// Applies field updates to the student with that id.
    pub fn update(db: &mut Database, student_id: i32, update_student: UpdateStudent) -> (r: Result<
        StudentWithRelations,
        AppError,
    >)
        requires
            old(db).wf(),
        ensures
            final(db).wf(),
            Database::only_students_changed(*old(db), *final(db)),
            r is Ok <==> has_id(old(db).students@, student_id_of(), student_id as int),
            r matches Ok(sr) ==> ({
                &&& sr.student == spec_apply_student_update(
                    row_with_id(old(db).students@, student_id_of(), student_id as int),
                    update_student,
                )
                &&& sr == spec_student_with_relations(*old(db), sr.student)
                &&& final(db).students@ == old(db).students@.update(
                    idx_with_id(old(db).students@, student_id_of(), student_id as int),
                    sr.student,
                )
            }),
            r matches Err(e) ==> e matches AppError::NotFound(_) && *final(db) == *old(db),
    {
        StudentRepository::update(db, student_id, update_student)
    }

    /// Deletes the student with that id; whether a row was removed.
    pub fn delete(db: &mut Database, student_id: i32) -> (r: Result<bool, AppError>)
        requires
            old(db).wf(),
        ensures
            final(db).wf(),
            Database::only_students_changed(*old(db), *final(db)),
            final(db).students@ == old(db).students@.filter(|s: Student| s.id != student_id),
            r matches Ok(deleted) && deleted == has_id(
                old(db).students@,
                student_id_of(),
                student_id as int,
            ),
    {
        let count = StudentRepository::delete(db, student_id)?;
        Ok(count > 0)
    }
}

} // verus!
