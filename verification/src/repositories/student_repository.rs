//! The students table, read together with its optional parent and group.
use vstd::prelude::*;
use vstd::pervasive::VecAdditionalExecFns;
use crate::error::AppError;
use crate::models::parent::Parent;
use crate::models::student::{NewStudent, Student, StudentWithRelations, UpdateStudent};
use crate::models::student_group::StudentGroup;
use crate::repositories::parent_repository::ParentRepository;
use crate::repositories::student_group_repository::StudentGroupRepository;
use crate::store::{
    Database, group_students, has_id, idx_with_id, lemma_filter_all, lemma_filter_drops_some,
    lemma_filter_keeps_table_wf, lemma_filter_push, lemma_row_with_id, opt_related, parent_id_of,
    row_with_id, student_group_id_of, student_id_of,
};

verus! {

/// The read shape of a student: the row joined with the parent and group its
/// foreign keys reach, where they exist.
pub open spec fn spec_student_with_relations(db: Database, s: Student) -> StudentWithRelations {
    StudentWithRelations {
        student: s,
        parent: opt_related(db.parents@, parent_id_of(), s.parent_id),
        student_group: opt_related(db.student_groups@, student_group_id_of(), s.student_group_id),
    }
}

/// The row `update` leaves behind: fields given as `None` keep their value.
pub open spec fn spec_apply_student_update(s: Student, u: UpdateStudent) -> Student {
    Student {
        id: s.id,
        name: match u.name {
            Some(n) => n,
            None => s.name,
        },
        birth_date: match u.birth_date {
            Some(d) => d,
            None => s.birth_date,
        },
        parent_id: match u.parent_id {
            Some(p) => Some(p),
            None => s.parent_id,
        },
        student_group_id: match u.student_group_id {
            Some(g) => Some(g),
            None => s.student_group_id,
        },
    }
}

pub struct StudentRepository;

impl StudentRepository {
    /// The parent a student's foreign key reaches, if any.
    fn related_parent(db: &Database, fk: Option<i32>) -> (r: Option<Parent>)
        requires
            db.wf(),
        ensures
            r == opt_related(db.parents@, parent_id_of(), fk),
    {
        match fk {
            Some(id) => ParentRepository::find(db, id),
            None => None,
        }
    }

    /// The group a student's foreign key reaches, if any.
    fn related_group(db: &Database, fk: Option<i32>) -> (r: Option<StudentGroup>)
        requires
            db.wf(),
        ensures
            r == opt_related(db.student_groups@, student_group_id_of(), fk),
    {
        match fk {
            Some(id) => StudentGroupRepository::find(db, id),
            None => None,
        }
    }

    /// Joins one student row with its parent and group.
    fn with_relations(db: &Database, s: Student) -> (r: StudentWithRelations)
        requires
            db.wf(),
        ensures
            r == spec_student_with_relations(*db, s),
    {
        let parent = Self::related_parent(db, s.parent_id);
        let student_group = Self::related_group(db, s.student_group_id);
        StudentWithRelations { student: s, parent, student_group }
    }

    /// Inserts a student row under the next fresh id; returns it joined with
    /// its parent and group.
    pub fn create(db: &mut Database, new_student: NewStudent) -> (r: Result<
        StudentWithRelations,
        AppError,
    >)
        requires
            old(db).wf(),
        ensures
            final(db).wf(),
            Database::only_students_changed(*old(db), *final(db)),
            old(db).next_student_id < i32::MAX ==> ({
                &&& r matches Ok(sr)
                &&& sr.student == (Student {
                    id: old(db).next_student_id,
                    name: new_student.name,
                    birth_date: new_student.birth_date,
                    parent_id: new_student.parent_id,
                    student_group_id: new_student.student_group_id,
                })
                &&& sr == spec_student_with_relations(*old(db), sr.student)
                &&& final(db).students@ == old(db).students@.push(sr.student)
                &&& final(db).next_student_id == old(db).next_student_id + 1
            }),
            old(db).next_student_id == i32::MAX ==> (r matches Err(e) && e is Database
                && *final(db) == *old(db)),
    {
        if db.next_student_id == i32::MAX {
            return Err(AppError::Database("students: id space exhausted".to_owned()));
        }
        let id = db.next_student_id;
        let row = Student {
            id,
            name: new_student.name,
            birth_date: new_student.birth_date,
            parent_id: new_student.parent_id,
            student_group_id: new_student.student_group_id,
        };
        let result = row.clone();
        db.students.push(row);
        db.next_student_id = id + 1;
        Ok(Self::with_relations(db, result))
    }

    /// The student row with the given id, if the table has it.
    pub fn find(db: &Database, student_id: i32) -> (r: Option<Student>)
        requires
            db.wf(),
        ensures
            r is Some <==> has_id(db.students@, student_id_of(), student_id as int),
            r matches Some(s) ==> s == row_with_id(db.students@, student_id_of(), student_id as int),
    {
        let n = db.students.len();
        let mut k: usize = 0;
        while k < n
            invariant
                k <= n,
                n == db.students@.len(),
                db.wf(),
                forall|i: int| 0 <= i < k ==> (#[trigger] db.students@[i]).id != student_id,
            decreases n - k,
        {
            if db.students[k].id == student_id {
                let s = db.students[k].clone();
                proof {
                    lemma_row_with_id(db.students@, student_id_of(), student_id as int, k as int);
                }
                return Some(s);
            }
            k += 1;
        }
        None
    }

    /// The student with the given id joined with their relations, or
    /// `NotFound`.
    pub fn get(db: &Database, student_id: i32) -> (r: Result<StudentWithRelations, AppError>)
        requires
            db.wf(),
        ensures
            r is Ok <==> has_id(db.students@, student_id_of(), student_id as int),
            r matches Ok(sr) ==> sr == spec_student_with_relations(
                *db,
                row_with_id(db.students@, student_id_of(), student_id as int),
            ),
            r matches Err(e) ==> e matches AppError::NotFound(_),
    {
        match Self::find(db, student_id) {
            Some(s) => Ok(Self::with_relations(db, s)),
            None => Err(AppError::NotFound("Student not found".to_owned())),
        }
    }

    /// Every student currently assigned to the given group, in table order,
    /// each joined with their relations.
    #[verifier::loop_isolation(false)]
    pub fn get_students_by_group_id(db: &Database, group_id: i32) -> (r: Result<
        Vec<StudentWithRelations>,
        AppError,
    >)
        requires
            db.wf(),
        ensures
            r matches Ok(rs) && ({
                let members = group_students(db.students@, group_id);
                &&& rs@.len() == members.len()
                &&& forall|i: int|
                    0 <= i < rs@.len() ==> #[trigger] rs@[i] == spec_student_with_relations(
                        *db,
                        members[i],
                    )
            }),
    {
        let ghost keep = |s: Student| s.student_group_id == Some(group_id);
        let n = db.students.len();
        let mut found: Vec<StudentWithRelations> = Vec::new();
        let mut k: usize = 0;
        while k < n
            invariant
                k <= n,
                n == db.students@.len(),
                found@.len() == group_students(db.students@.take(k as int), group_id).len(),
                forall|i: int|
                    0 <= i < found@.len() ==> #[trigger] found@[i] == spec_student_with_relations(
                        *db,
                        group_students(db.students@.take(k as int), group_id)[i],
                    ),
            decreases n - k,
        {
            let matches_group = match db.students[k].student_group_id {
                Some(g) => g == group_id,
                None => false,
            };
            if matches_group {
                found.push(Self::with_relations(db, db.students[k].clone()));
            }
            proof {
                let s = db.students@;
                let x = s[k as int];
                lemma_filter_push(s.take(k as int), keep, x);
                assert(s.take(k as int + 1) =~= s.take(k as int).push(x));
            }
            k += 1;
        }
        proof {
            assert(db.students@.take(n as int) =~= db.students@);
        }
        Ok(found)
    }

    /// Applies the given field updates to the student with that id; returns
    /// the new row joined with its relations.
    pub fn update(db: &mut Database, student_id: i32, updated_student: UpdateStudent) -> (r: Result<
        StudentWithRelations,
        AppError,
    >)
        requires
            old(db).wf(),
        ensures
            final(db).wf(),
            Database::only_students_changed(*old(db), *final(db)),
            final(db).next_student_id == old(db).next_student_id,
            r is Ok <==> has_id(old(db).students@, student_id_of(), student_id as int),
            r matches Ok(sr) ==> ({
                &&& sr.student == spec_apply_student_update(
                    row_with_id(old(db).students@, student_id_of(), student_id as int),
                    updated_student,
                )
                &&& sr == spec_student_with_relations(*old(db), sr.student)
                &&& final(db).students@ == old(db).students@.update(
                    idx_with_id(old(db).students@, student_id_of(), student_id as int),
                    sr.student,
                )
            }),
            r matches Err(e) ==> e matches AppError::NotFound(_) && *final(db) == *old(db),
    {
        let n = db.students.len();
        let mut k: usize = 0;
        while k < n
            invariant
                k <= n,
                n == db.students@.len(),
                db.wf(),
                *db == *old(db),
                forall|i: int| 0 <= i < k ==> (#[trigger] db.students@[i]).id != student_id,
            decreases n - k,
        {
            if db.students[k].id == student_id {
                proof {
                    lemma_row_with_id(db.students@, student_id_of(), student_id as int, k as int);
                }
                let current = db.students[k].clone();
                let updated = Student {
                    id: current.id,
                    name: match updated_student.name {
                        Some(n) => n,
                        None => current.name,
                    },
                    birth_date: match updated_student.birth_date {
                        Some(d) => d,
                        None => current.birth_date,
                    },
                    parent_id: match updated_student.parent_id {
                        Some(p) => Some(p),
                        None => current.parent_id,
                    },
                    student_group_id: match updated_student.student_group_id {
                        Some(g) => Some(g),
                        None => current.student_group_id,
                    },
                };
                let result = updated.clone();
                db.students.set(k, updated);
                return Ok(Self::with_relations(db, result));
            }
            k += 1;
        }
        Err(AppError::NotFound("Student not found".to_owned()))
    }

    /// Removes the student with that id; the count of removed rows.
    #[verifier::loop_isolation(false)]
    pub fn delete(db: &mut Database, student_id: i32) -> (r: Result<usize, AppError>)
        requires
            old(db).wf(),
        ensures
            final(db).wf(),
            Database::only_students_changed(*old(db), *final(db)),
            final(db).next_student_id == old(db).next_student_id,
            final(db).students@ == old(db).students@.filter(|s: Student| s.id != student_id),
            r matches Ok(cnt) && ((cnt > 0) <==> has_id(
                old(db).students@,
                student_id_of(),
                student_id as int,
            )),
    {
        let ghost pred = |s: Student| s.id != student_id;
        let n = db.students.len();
        let mut kept: Vec<Student> = Vec::new();
        let mut k: usize = 0;
        while k < n
            invariant
                k <= n,
                n == db.students@.len(),
                *db == *old(db),
                kept@ == db.students@.take(k as int).filter(pred),
            decreases n - k,
        {
            if db.students[k].id != student_id {
                kept.push(db.students[k].clone());
            }
            proof {
                let s = db.students@;
                let x = s[k as int];
                lemma_filter_push(s.take(k as int), pred, x);
                assert(s.take(k as int + 1) =~= s.take(k as int).push(x));
            }
            k += 1;
        }
        proof {
            broadcast use Seq::lemma_filter_len;

            assert(db.students@.take(n as int) =~= db.students@);
            if has_id(db.students@, student_id_of(), student_id as int) {
                let i = idx_with_id(db.students@, student_id_of(), student_id as int);
                assert(0 <= i < db.students@.len() && db.students@[i].id == student_id);
                lemma_filter_drops_some(db.students@, pred, i);
            } else {
                assert forall|i: int| 0 <= i < db.students@.len() implies pred(
                    #[trigger] db.students@[i],
                ) by {
                    assert(!has_id(db.students@, student_id_of(), student_id as int));
                }
                lemma_filter_all(db.students@, pred);
            }
            lemma_filter_keeps_table_wf(
                db.students@,
                pred,
                student_id_of(),
                db.next_student_id as int,
            );
        }
        let removed = n - kept.len();
        db.students = kept;
        Ok(removed)
    }
}

} // verus!
