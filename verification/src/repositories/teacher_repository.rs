//! The teachers table.
use vstd::prelude::*;
use vstd::pervasive::VecAdditionalExecFns;
use crate::error::AppError;
use crate::models::teacher::{NewTeacher, Teacher, UpdateTeacher};
use crate::store::{
    Database, has_id, idx_with_id, lemma_filter_all, lemma_filter_drops_some,
    lemma_filter_keeps_table_wf, lemma_filter_push, lemma_row_with_id, row_with_id, teacher_id_of,
};

verus! {

/// The row `update` leaves behind: a `None` name keeps the current one.
pub open spec fn spec_apply_teacher_update(t: Teacher, u: UpdateTeacher) -> Teacher {
    Teacher {
        id: t.id,
        name: match u.name {
            Some(n) => n,
            None => t.name,
        },
    }
}

pub struct TeacherRepository;

impl TeacherRepository {
    /// Inserts a teacher row under the next fresh id.
    pub fn create(db: &mut Database, new_teacher: NewTeacher) -> (r: Result<Teacher, AppError>)
        requires
            old(db).wf(),
        ensures
            final(db).wf(),
            Database::only_teachers_changed(*old(db), *final(db)),
            old(db).next_teacher_id < i32::MAX ==> ({
                &&& r matches Ok(t)
                &&& t == (Teacher { id: old(db).next_teacher_id, name: new_teacher.name })
                &&& final(db).teachers@ == old(db).teachers@.push(t)
                &&& final(db).next_teacher_id == old(db).next_teacher_id + 1
            }),
            old(db).next_teacher_id == i32::MAX ==> (r matches Err(e) && e is Database
                && *final(db) == *old(db)),
    {
        if db.next_teacher_id == i32::MAX {
            return Err(AppError::Database("teachers: id space exhausted".to_owned()));
        }
        let id = db.next_teacher_id;
        let row = Teacher { id, name: new_teacher.name };
        let result = row.clone();
        db.teachers.push(row);
        db.next_teacher_id = id + 1;
        Ok(result)
    }

    /// The teacher with the given id, if the table has it.
    pub fn find(db: &Database, teacher_id: i32) -> (r: Option<Teacher>)
        requires
            db.wf(),
        ensures
            r is Some <==> has_id(db.teachers@, teacher_id_of(), teacher_id as int),
            r matches Some(t) ==> t == row_with_id(db.teachers@, teacher_id_of(), teacher_id as int),
    {
        let n = db.teachers.len();
        let mut k: usize = 0;
        while k < n
            invariant
                k <= n,
                n == db.teachers@.len(),
                db.wf(),
                forall|i: int| 0 <= i < k ==> (#[trigger] db.teachers@[i]).id != teacher_id,
            decreases n - k,
        {
            if db.teachers[k].id == teacher_id {
                let t = db.teachers[k].clone();
                proof {
                    lemma_row_with_id(db.teachers@, teacher_id_of(), teacher_id as int, k as int);
                }
                return Some(t);
            }
            k += 1;
        }
        None
    }

    /// The teacher with the given id, or `NotFound`.
    pub fn get(db: &Database, teacher_id: i32) -> (r: Result<Teacher, AppError>)
        requires
            db.wf(),
        ensures
            r is Ok <==> has_id(db.teachers@, teacher_id_of(), teacher_id as int),
            r matches Ok(t) ==> t == row_with_id(db.teachers@, teacher_id_of(), teacher_id as int),
            r matches Err(e) ==> e matches AppError::NotFound(_),
    {
        match Self::find(db, teacher_id) {
            Some(t) => Ok(t),
            None => Err(AppError::NotFound("Teacher not found".to_owned())),
        }
    }

    /// Applies the given field updates to the teacher with that id.
    pub fn update(db: &mut Database, teacher_id: i32, updated_teacher: UpdateTeacher) -> (r: Result<
        Teacher,
        AppError,
    >)
        requires
            old(db).wf(),
        ensures
            final(db).wf(),
            Database::only_teachers_changed(*old(db), *final(db)),
            final(db).next_teacher_id == old(db).next_teacher_id,
            r is Ok <==> has_id(old(db).teachers@, teacher_id_of(), teacher_id as int),
            r matches Ok(t) ==> ({
                &&& t == spec_apply_teacher_update(
                    row_with_id(old(db).teachers@, teacher_id_of(), teacher_id as int),
                    updated_teacher,
                )
                &&& final(db).teachers@ == old(db).teachers@.update(
                    idx_with_id(old(db).teachers@, teacher_id_of(), teacher_id as int),
                    t,
                )
            }),
            r matches Err(e) ==> e matches AppError::NotFound(_) && *final(db) == *old(db),
    {
        let n = db.teachers.len();
        let mut k: usize = 0;
        while k < n
            invariant
                k <= n,
                n == db.teachers@.len(),
                db.wf(),
                *db == *old(db),
                forall|i: int| 0 <= i < k ==> (#[trigger] db.teachers@[i]).id != teacher_id,
            decreases n - k,
        {
            if db.teachers[k].id == teacher_id {
                proof {
                    lemma_row_with_id(db.teachers@, teacher_id_of(), teacher_id as int, k as int);
                }
                let current = db.teachers[k].clone();
                let updated = Teacher {
                    id: current.id,
                    name: match updated_teacher.name {
                        Some(n) => n,
                        None => current.name,
                    },
                };
                let result = updated.clone();
                db.teachers.set(k, updated);
                return Ok(result);
            }
            k += 1;
        }
        Err(AppError::NotFound("Teacher not found".to_owned()))
    }

    /// Removes the teacher with that id; the count of removed rows.
    #[verifier::loop_isolation(false)]
    pub fn delete(db: &mut Database, teacher_id: i32) -> (r: Result<usize, AppError>)
        requires
            old(db).wf(),
        ensures
            final(db).wf(),
            Database::only_teachers_changed(*old(db), *final(db)),
            final(db).next_teacher_id == old(db).next_teacher_id,
            final(db).teachers@ == old(db).teachers@.filter(|t: Teacher| t.id != teacher_id),
            r matches Ok(cnt) && ((cnt > 0) <==> has_id(
                old(db).teachers@,
                teacher_id_of(),
                teacher_id as int,
            )),
    {
        let ghost pred = |t: Teacher| t.id != teacher_id;
        let n = db.teachers.len();
        let mut kept: Vec<Teacher> = Vec::new();
        let mut k: usize = 0;
        while k < n
            invariant
                k <= n,
                n == db.teachers@.len(),
                *db == *old(db),
                kept@ == db.teachers@.take(k as int).filter(pred),
            decreases n - k,
        {
            if db.teachers[k].id != teacher_id {
                kept.push(db.teachers[k].clone());
            }
            proof {
                let s = db.teachers@;
                let x = s[k as int];
                lemma_filter_push(s.take(k as int), pred, x);
                assert(s.take(k as int + 1) =~= s.take(k as int).push(x));
            }
            k += 1;
        }
        proof {
            broadcast use Seq::lemma_filter_len;

            assert(db.teachers@.take(n as int) =~= db.teachers@);
            if has_id(db.teachers@, teacher_id_of(), teacher_id as int) {
                let i = idx_with_id(db.teachers@, teacher_id_of(), teacher_id as int);
                assert(0 <= i < db.teachers@.len() && db.teachers@[i].id == teacher_id);
                lemma_filter_drops_some(db.teachers@, pred, i);
            } else {
                assert forall|i: int| 0 <= i < db.teachers@.len() implies pred(
                    #[trigger] db.teachers@[i],
                ) by {
                    assert(!has_id(db.teachers@, teacher_id_of(), teacher_id as int));
                }
                lemma_filter_all(db.teachers@, pred);
            }
            lemma_filter_keeps_table_wf(
                db.teachers@,
                pred,
                teacher_id_of(),
                db.next_teacher_id as int,
            );
        }
        let removed = n - kept.len();
        db.teachers = kept;
        Ok(removed)
    }
}

} // verus!
