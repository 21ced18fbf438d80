//! Teachers: create, read, update, delete.
use vstd::prelude::*;
use crate::error::AppError;
use crate::models::teacher::{NewTeacher, Teacher, UpdateTeacher};
use crate::repositories::teacher_repository::{spec_apply_teacher_update, TeacherRepository};
use crate::store::{has_id, idx_with_id, row_with_id, teacher_id_of, Database};

verus! {

pub struct TeacherService;

impl TeacherService {
    /// Creates a teacher.
    pub fn create(db: &mut Database, new_teacher: NewTeacher) -> (r: Result<Teacher, AppError>)
        requires
            old(db).wf(),
        ensures
            final(db).wf(),
            Database::only_teachers_changed(*old(db), *final(db)),
            old(db).next_teacher_id < i32::MAX ==> ({
                &&& r matches Ok(t)
                &&& t == (Teacher { id: old(db).next_teacher_id, name: new_teacher.name })
                &&& final(db).teachers@ == old(db).teachers@.push(t)
            }),
            old(db).next_teacher_id == i32::MAX ==> (r matches Err(e) && e is Database
                && *final(db) == *old(db)),
    {
        TeacherRepository::create(db, new_teacher)
    }

    /// The teacher with the given id.
    pub fn get(db: &Database, teacher_id: i32) -> (r: Result<Teacher, AppError>)
        requires
            db.wf(),
        ensures
            r is Ok <==> has_id(db.teachers@, teacher_id_of(), teacher_id as int),
            r matches Ok(t) ==> t == row_with_id(db.teachers@, teacher_id_of(), teacher_id as int),
            r matches Err(e) ==> e matches AppError::NotFound(_),
    {
        TeacherRepository::get(db, teacher_id)
    }

    /// Applies field updates to the teacher with that id.
    pub fn update(db: &mut Database, teacher_id: i32, update_teacher: UpdateTeacher) -> (r: Result<
        Teacher,
        AppError,
    >)
        requires
            old(db).wf(),
        ensures
            final(db).wf(),
            Database::only_teachers_changed(*old(db), *final(db)),
            r is Ok <==> has_id(old(db).teachers@, teacher_id_of(), teacher_id as int),
            r matches Ok(t) ==> ({
                &&& t == spec_apply_teacher_update(
                    row_with_id(old(db).teachers@, teacher_id_of(), teacher_id as int),
                    update_teacher,
                )
                &&& final(db).teachers@ == old(db).teachers@.update(
                    idx_with_id(old(db).teachers@, teacher_id_of(), teacher_id as int),
                    t,
                )
            }),
            r matches Err(e) ==> e matches AppError::NotFound(_) && *final(db) == *old(db),
    {
        TeacherRepository::update(db, teacher_id, update_teacher)
    }

    /// Deletes the teacher with that id; whether a row was removed.
    pub fn delete(db: &mut Database, teacher_id: i32) -> (r: Result<bool, AppError>)
        requires
            old(db).wf(),
        ensures
            final(db).wf(),
            Database::only_teachers_changed(*old(db), *final(db)),
            final(db).teachers@ == old(db).teachers@.filter(|t: Teacher| t.id != teacher_id),
            r matches Ok(deleted) && deleted == has_id(
                old(db).teachers@,
                teacher_id_of(),
                teacher_id as int,
            ),
    {
        let count = TeacherRepository::delete(db, teacher_id)?;
        Ok(count > 0)
    }
}

} // verus!
