//! The student-groups table, read together with its optional teacher.
use vstd::prelude::*;
use vstd::pervasive::VecAdditionalExecFns;
use crate::error::AppError;
use crate::models::student_group::{
    NewStudentGroup, StudentGroup, StudentGroupWithRelations, UpdateStudentGroup,
};
use crate::models::teacher::Teacher;
use crate::repositories::teacher_repository::TeacherRepository;
use crate::store::{
    Database, has_id, idx_with_id, lemma_filter_all, lemma_filter_drops_some,
    lemma_filter_keeps_table_wf, lemma_filter_push, lemma_row_with_id, opt_related, row_with_id,
    student_group_id_of, teacher_id_of,
};

verus! {

/// The read shape of a group: the row joined with the teacher its foreign
/// key reaches, if any.
pub open spec fn spec_group_with_relations(db: Database, g: StudentGroup) -> StudentGroupWithRelations {
    StudentGroupWithRelations {
        student_group: g,
        teacher: opt_related(db.teachers@, teacher_id_of(), g.teacher_id),
    }
}

/// The row `update` leaves behind: fields given as `None` keep their value.
pub open spec fn spec_apply_student_group_update(
    g: StudentGroup,
    u: UpdateStudentGroup,
) -> StudentGroup {
    StudentGroup {
        id: g.id,
        direction: match u.direction {
            Some(d) => Some(d),
            None => g.direction,
        },
        free_spots: match u.free_spots {
            Some(f) => f,
            None => g.free_spots,
        },
        teacher_id: match u.teacher_id {
            Some(t) => Some(t),
            None => g.teacher_id,
        },
    }
}

pub struct StudentGroupRepository;

impl StudentGroupRepository {
    /// The teacher a group's foreign key reaches, if any.
    fn related_teacher(db: &Database, fk: Option<i32>) -> (r: Option<Teacher>)
        requires
            db.wf(),
        ensures
            r == opt_related(db.teachers@, teacher_id_of(), fk),
    {
        match fk {
            Some(id) => TeacherRepository::find(db, id),
            None => None,
        }
    }

    /// Inserts a group row under the next fresh id; returns it joined with
    /// its teacher.
    pub fn create(db: &mut Database, new_student_group: NewStudentGroup) -> (r: Result<
        StudentGroupWithRelations,
        AppError,
    >)
        requires
            old(db).wf(),
        ensures
            final(db).wf(),
            Database::only_student_groups_changed(*old(db), *final(db)),
            old(db).next_student_group_id < i32::MAX ==> ({
                &&& r matches Ok(gr)
                &&& gr.student_group == (StudentGroup {
                    id: old(db).next_student_group_id,
                    direction: new_student_group.direction,
                    free_spots: new_student_group.free_spots,
                    teacher_id: new_student_group.teacher_id,
                })
                &&& gr == spec_group_with_relations(*old(db), gr.student_group)
                &&& final(db).student_groups@ == old(db).student_groups@.push(gr.student_group)
                &&& final(db).next_student_group_id == old(db).next_student_group_id + 1
            }),
            old(db).next_student_group_id == i32::MAX ==> (r matches Err(e) && e is Database
                && *final(db) == *old(db)),
    {
        if db.next_student_group_id == i32::MAX {
            return Err(AppError::Database("student_groups: id space exhausted".to_owned()));
        }
        let id = db.next_student_group_id;
        let row = StudentGroup {
            id,
            direction: new_student_group.direction,
            free_spots: new_student_group.free_spots,
            teacher_id: new_student_group.teacher_id,
        };
        let result = row.clone();
        db.student_groups.push(row);
        db.next_student_group_id = id + 1;
        let teacher = Self::related_teacher(db, result.teacher_id);
        Ok(StudentGroupWithRelations { student_group: result, teacher })
    }

    /// The group row with the given id, if the table has it.
    pub fn find(db: &Database, student_group_id: i32) -> (r: Option<StudentGroup>)
        requires
            db.wf(),
        ensures
            r is Some <==> has_id(db.student_groups@, student_group_id_of(), student_group_id as int),
            r matches Some(g) ==> g == row_with_id(
                db.student_groups@,
                student_group_id_of(),
                student_group_id as int,
            ),
    {
        let n = db.student_groups.len();
        let mut k: usize = 0;
        while k < n
            invariant
                k <= n,
                n == db.student_groups@.len(),
                db.wf(),
                forall|i: int| 0 <= i < k ==> (#[trigger] db.student_groups@[i]).id != student_group_id,
            decreases n - k,
        {
            if db.student_groups[k].id == student_group_id {
                let g = db.student_groups[k].clone();
                proof {
                    lemma_row_with_id(
                        db.student_groups@,
                        student_group_id_of(),
                        student_group_id as int,
                        k as int,
                    );
                }
                return Some(g);
            }
            k += 1;
        }
        None
    }

    /// The group with the given id joined with its teacher, or `NotFound`.
    pub fn get(db: &Database, student_group_id: i32) -> (r: Result<
        StudentGroupWithRelations,
        AppError,
    >)
        requires
            db.wf(),
        ensures
            r is Ok <==> has_id(db.student_groups@, student_group_id_of(), student_group_id as int),
            r matches Ok(gr) ==> gr == spec_group_with_relations(
                *db,
                row_with_id(db.student_groups@, student_group_id_of(), student_group_id as int),
            ),
            r matches Err(e) ==> e matches AppError::NotFound(_),
    {
        match Self::find(db, student_group_id) {
            Some(g) => {
                let teacher = Self::related_teacher(db, g.teacher_id);
                Ok(StudentGroupWithRelations { student_group: g, teacher })
            },
            None => Err(AppError::NotFound("Student group not found".to_owned())),
        }
    }

    /// Applies the given field updates to the group with that id; returns the
    /// new row joined with its teacher.
    pub fn update(
        db: &mut Database,
        student_group_id: i32,
        updated_student_group: UpdateStudentGroup,
    ) -> (r: Result<StudentGroupWithRelations, AppError>)
        requires
            old(db).wf(),
        ensures
            final(db).wf(),
            Database::only_student_groups_changed(*old(db), *final(db)),
            final(db).next_student_group_id == old(db).next_student_group_id,
            r is Ok <==> has_id(
                old(db).student_groups@,
                student_group_id_of(),
                student_group_id as int,
            ),
            r matches Ok(gr) ==> ({
                &&& gr.student_group == spec_apply_student_group_update(
                    row_with_id(
                        old(db).student_groups@,
                        student_group_id_of(),
                        student_group_id as int,
                    ),
                    updated_student_group,
                )
                &&& gr == spec_group_with_relations(*old(db), gr.student_group)
                &&& final(db).student_groups@ == old(db).student_groups@.update(
                    idx_with_id(
                        old(db).student_groups@,
                        student_group_id_of(),
                        student_group_id as int,
                    ),
                    gr.student_group,
                )
            }),
            r matches Err(e) ==> e matches AppError::NotFound(_) && *final(db) == *old(db),
    {
        let n = db.student_groups.len();
        let mut k: usize = 0;
        while k < n
            invariant
                k <= n,
                n == db.student_groups@.len(),
                db.wf(),
                *db == *old(db),
                forall|i: int| 0 <= i < k ==> (#[trigger] db.student_groups@[i]).id != student_group_id,
            decreases n - k,
        {
            if db.student_groups[k].id == student_group_id {
                proof {
                    lemma_row_with_id(
                        db.student_groups@,
                        student_group_id_of(),
                        student_group_id as int,
                        k as int,
                    );
                }
                let current = db.student_groups[k].clone();
                let updated = StudentGroup {
                    id: current.id,
                    direction: match updated_student_group.direction {
                        Some(d) => Some(d),
                        None => current.direction,
                    },
                    free_spots: match updated_student_group.free_spots {
                        Some(f) => f,
                        None => current.free_spots,
                    },
                    teacher_id: match updated_student_group.teacher_id {
                        Some(t) => Some(t),
                        None => current.teacher_id,
                    },
                };
                let result = updated.clone();
                db.student_groups.set(k, updated);
                let teacher = Self::related_teacher(db, result.teacher_id);
                return Ok(StudentGroupWithRelations { student_group: result, teacher });
            }
            k += 1;
        }
        Err(AppError::NotFound("Student group not found".to_owned()))
    }

    /// Removes the group with that id; the count of removed rows.
    #[verifier::loop_isolation(false)]
    pub fn delete(db: &mut Database, student_group_id: i32) -> (r: Result<usize, AppError>)
        requires
            old(db).wf(),
        ensures
            final(db).wf(),
            Database::only_student_groups_changed(*old(db), *final(db)),
            final(db).next_student_group_id == old(db).next_student_group_id,
            final(db).student_groups@ == old(db).student_groups@.filter(
                |g: StudentGroup| g.id != student_group_id,
            ),
            r matches Ok(cnt) && ((cnt > 0) <==> has_id(
                old(db).student_groups@,
                student_group_id_of(),
                student_group_id as int,
            )),
    {
        let ghost pred = |g: StudentGroup| g.id != student_group_id;
        let n = db.student_groups.len();
        let mut kept: Vec<StudentGroup> = Vec::new();
        let mut k: usize = 0;
        while k < n
            invariant
                k <= n,
                n == db.student_groups@.len(),
                *db == *old(db),
                kept@ == db.student_groups@.take(k as int).filter(pred),
            decreases n - k,
        {
            if db.student_groups[k].id != student_group_id {
                kept.push(db.student_groups[k].clone());
            }
            proof {
                let s = db.student_groups@;
                let x = s[k as int];
                lemma_filter_push(s.take(k as int), pred, x);
                assert(s.take(k as int + 1) =~= s.take(k as int).push(x));
            }
            k += 1;
        }
        proof {
            broadcast use Seq::lemma_filter_len;

            assert(db.student_groups@.take(n as int) =~= db.student_groups@);
            if has_id(db.student_groups@, student_group_id_of(), student_group_id as int) {
                let i = idx_with_id(db.student_groups@, student_group_id_of(), student_group_id as int);
                assert(0 <= i < db.student_groups@.len() && db.student_groups@[i].id
                    == student_group_id);
                lemma_filter_drops_some(db.student_groups@, pred, i);
            } else {
                assert forall|i: int| 0 <= i < db.student_groups@.len() implies pred(
                    #[trigger] db.student_groups@[i],
                ) by {
                    assert(!has_id(
                        db.student_groups@,
                        student_group_id_of(),
                        student_group_id as int,
                    ));
                }
                lemma_filter_all(db.student_groups@, pred);
            }
            lemma_filter_keeps_table_wf(
                db.student_groups@,
                pred,
                student_group_id_of(),
                db.next_student_group_id as int,
            );
        }
        let removed = n - kept.len();
        db.student_groups = kept;
        Ok(removed)
    }
}

} // verus!
