//! The lessons table, read together with its optional student group.
use vstd::prelude::*;
use vstd::pervasive::VecAdditionalExecFns;
use crate::error::AppError;
use crate::models::lesson::{Lesson, LessonWithRelations, NewLesson, UpdateLesson};
use crate::models::student_group::StudentGroup;
use crate::repositories::student_group_repository::StudentGroupRepository;
use crate::store::{
    Database, has_id, idx_with_id, lemma_filter_all, lemma_filter_drops_some,
    lemma_filter_keeps_table_wf, lemma_filter_push, lemma_row_with_id, lesson_id_of, opt_related,
    row_with_id, student_group_id_of,
};

verus! {

/// The read shape of a lesson: the row joined with the group its foreign key
/// reaches, if any.
pub open spec fn spec_lesson_with_relations(db: Database, l: Lesson) -> LessonWithRelations {
    LessonWithRelations {
        lesson: l,
        student_group: opt_related(db.student_groups@, student_group_id_of(), l.student_group_id),
    }
}

/// The row `update` leaves behind: `topic` and `scheduled_at` given as `None`
/// keep their value, while `student_group_id` is applied as given — its
/// absence means "no group".
pub open spec fn spec_apply_lesson_update(l: Lesson, u: UpdateLesson) -> Lesson {
    Lesson {
        id: l.id,
        topic: match u.topic {
            Some(t) => t,
            None => l.topic,
        },
        scheduled_at: match u.scheduled_at {
            Some(d) => d,
            None => l.scheduled_at,
        },
        student_group_id: u.student_group_id,
    }
}

pub struct LessonRepository;

impl LessonRepository {
    /// The group a lesson's foreign key reaches, if any.
    pub(crate) fn related_group(db: &Database, fk: Option<i32>) -> (r: Option<StudentGroup>)
        requires
            db.wf(),
        ensures
            r == opt_related(db.student_groups@, student_group_id_of(), fk),
    {
        match fk {
            Some(id) => StudentGroupRepository::find(db, id),
            None => None,
        }
    }

    /// Inserts a lesson row under the next fresh id; returns it joined with
    /// its group. Only the lessons table moves; attendance rows are the
    /// lesson service's business.
    pub fn create(db: &mut Database, new_lesson: NewLesson) -> (r: Result<
        LessonWithRelations,
        AppError,
    >)
        requires
            old(db).wf(),
        ensures
            final(db).wf(),
            Database::only_lessons_changed(*old(db), *final(db)),
            old(db).next_lesson_id < i32::MAX ==> ({
                &&& r matches Ok(lr)
                &&& lr.lesson == (Lesson {
                    id: old(db).next_lesson_id,
                    topic: new_lesson.topic,
                    scheduled_at: new_lesson.scheduled_at,
                    student_group_id: new_lesson.student_group_id,
                })
                &&& lr == spec_lesson_with_relations(*old(db), lr.lesson)
                &&& final(db).lessons@ == old(db).lessons@.push(lr.lesson)
                &&& final(db).next_lesson_id == old(db).next_lesson_id + 1
            }),
            old(db).next_lesson_id == i32::MAX ==> (r matches Err(e) && e is Database
                && *final(db) == *old(db)),
    {
        if db.next_lesson_id == i32::MAX {
            return Err(AppError::Database("lessons: id space exhausted".to_owned()));
        }
        let id = db.next_lesson_id;
        let row = Lesson {
            id,
            topic: new_lesson.topic,
            scheduled_at: new_lesson.scheduled_at,
            student_group_id: new_lesson.student_group_id,
        };
        let result = row.clone();
        db.lessons.push(row);
        db.next_lesson_id = id + 1;
        let student_group = Self::related_group(db, result.student_group_id);
        Ok(LessonWithRelations { lesson: result, student_group })
    }

    /// The lesson row with the given id, if the table has it.
    pub fn find(db: &Database, lesson_id: i32) -> (r: Option<Lesson>)
        requires
            db.wf(),
        ensures
            r is Some <==> has_id(db.lessons@, lesson_id_of(), lesson_id as int),
            r matches Some(l) ==> l == row_with_id(db.lessons@, lesson_id_of(), lesson_id as int),
    {
        let n = db.lessons.len();
        let mut k: usize = 0;
        while k < n
            invariant
                k <= n,
                n == db.lessons@.len(),
                db.wf(),
                forall|i: int| 0 <= i < k ==> (#[trigger] db.lessons@[i]).id != lesson_id,
            decreases n - k,
        {
            if db.lessons[k].id == lesson_id {
                let l = db.lessons[k].clone();
                proof {
                    lemma_row_with_id(db.lessons@, lesson_id_of(), lesson_id as int, k as int);
                }
                return Some(l);
            }
            k += 1;
        }
        None
    }

    /// The lesson with the given id joined with its group, or `NotFound`.
    pub fn get(db: &Database, lesson_id: i32) -> (r: Result<LessonWithRelations, AppError>)
        requires
            db.wf(),
        ensures
            r is Ok <==> has_id(db.lessons@, lesson_id_of(), lesson_id as int),
            r matches Ok(lr) ==> lr == spec_lesson_with_relations(
                *db,
                row_with_id(db.lessons@, lesson_id_of(), lesson_id as int),
            ),
            r matches Err(e) ==> e matches AppError::NotFound(_),
    {
        match Self::find(db, lesson_id) {
            Some(l) => {
                let student_group = Self::related_group(db, l.student_group_id);
                Ok(LessonWithRelations { lesson: l, student_group })
            },
            None => Err(AppError::NotFound("Lesson not found".to_owned())),
        }
    }

    /// Every lesson currently bound to the given group, in table order.
    #[verifier::loop_isolation(false)]
    pub fn get_lessons_by_group_id(db: &Database, group_id: i32) -> (r: Result<
        Vec<Lesson>,
        AppError,
    >)
        requires
            db.wf(),
        ensures
            r matches Ok(ls) && ls@ == db.lessons@.filter(
                |l: Lesson| l.student_group_id == Some(group_id),
            ),
    {
        let ghost keep = |l: Lesson| l.student_group_id == Some(group_id);
        let n = db.lessons.len();
        let mut found: Vec<Lesson> = Vec::new();
        let mut k: usize = 0;
        while k < n
            invariant
                k <= n,
                n == db.lessons@.len(),
                found@ == db.lessons@.take(k as int).filter(keep),
            decreases n - k,
        {
            let matches_group = match db.lessons[k].student_group_id {
                Some(g) => g == group_id,
                None => false,
            };
            if matches_group {
                found.push(db.lessons[k].clone());
            }
            proof {
                let s = db.lessons@;
                let x = s[k as int];
                lemma_filter_push(s.take(k as int), keep, x);
                assert(s.take(k as int + 1) =~= s.take(k as int).push(x));
            }
            k += 1;
        }
        proof {
            assert(db.lessons@.take(n as int) =~= db.lessons@);
        }
        Ok(found)
    }

    /// Applies the given field updates to the lesson with that id; returns
    /// the new row joined with its group. The attendance consequences of a
    /// group change are the lesson service's business.
    pub fn update(db: &mut Database, lesson_id: i32, updated_lesson: UpdateLesson) -> (r: Result<
        LessonWithRelations,
        AppError,
    >)
        requires
            old(db).wf(),
        ensures
            final(db).wf(),
            Database::only_lessons_changed(*old(db), *final(db)),
            final(db).next_lesson_id == old(db).next_lesson_id,
            r is Ok <==> has_id(old(db).lessons@, lesson_id_of(), lesson_id as int),
            r matches Ok(lr) ==> ({
                &&& lr.lesson == spec_apply_lesson_update(
                    row_with_id(old(db).lessons@, lesson_id_of(), lesson_id as int),
                    updated_lesson,
                )
                &&& lr == spec_lesson_with_relations(*old(db), lr.lesson)
                &&& final(db).lessons@ == old(db).lessons@.update(
                    idx_with_id(old(db).lessons@, lesson_id_of(), lesson_id as int),
                    lr.lesson,
                )
            }),
            r matches Err(e) ==> e matches AppError::NotFound(_) && *final(db) == *old(db),
    {
        let n = db.lessons.len();
        let mut k: usize = 0;
        while k < n
            invariant
                k <= n,
                n == db.lessons@.len(),
                db.wf(),
                *db == *old(db),
                forall|i: int| 0 <= i < k ==> (#[trigger] db.lessons@[i]).id != lesson_id,
            decreases n - k,
        {
            if db.lessons[k].id == lesson_id {
                proof {
                    lemma_row_with_id(db.lessons@, lesson_id_of(), lesson_id as int, k as int);
                }
                let current = db.lessons[k].clone();
                let updated = Lesson {
                    id: current.id,
                    topic: match updated_lesson.topic {
                        Some(t) => t,
                        None => current.topic,
                    },
                    scheduled_at: match updated_lesson.scheduled_at {
                        Some(d) => d,
                        None => current.scheduled_at,
                    },
                    student_group_id: updated_lesson.student_group_id,
                };
                let result = updated.clone();
                db.lessons.set(k, updated);
                let student_group = Self::related_group(db, result.student_group_id);
                return Ok(LessonWithRelations { lesson: result, student_group });
            }
            k += 1;
        }
        Err(AppError::NotFound("Lesson not found".to_owned()))
    }

    /// Removes the lesson with that id; the count of removed rows. Attendance
    /// rows referencing the lesson are left as they are.
    #[verifier::loop_isolation(false)]
    pub fn delete(db: &mut Database, lesson_id: i32) -> (r: Result<usize, AppError>)
        requires
            old(db).wf(),
        ensures
            final(db).wf(),
            Database::only_lessons_changed(*old(db), *final(db)),
            final(db).next_lesson_id == old(db).next_lesson_id,
            final(db).lessons@ == old(db).lessons@.filter(|l: Lesson| l.id != lesson_id),
            r matches Ok(cnt) && ((cnt > 0) <==> has_id(
                old(db).lessons@,
                lesson_id_of(),
                lesson_id as int,
            )),
    {
        let ghost pred = |l: Lesson| l.id != lesson_id;
        let n = db.lessons.len();
        let mut kept: Vec<Lesson> = Vec::new();
        let mut k: usize = 0;
        while k < n
            invariant
                k <= n,
                n == db.lessons@.len(),
                *db == *old(db),
                kept@ == db.lessons@.take(k as int).filter(pred),
            decreases n - k,
        {
            if db.lessons[k].id != lesson_id {
                kept.push(db.lessons[k].clone());
            }
            proof {
                let s = db.lessons@;
                let x = s[k as int];
                lemma_filter_push(s.take(k as int), pred, x);
                assert(s.take(k as int + 1) =~= s.take(k as int).push(x));
            }
            k += 1;
        }
        proof {
            broadcast use Seq::lemma_filter_len;

            assert(db.lessons@.take(n as int) =~= db.lessons@);
            if has_id(db.lessons@, lesson_id_of(), lesson_id as int) {
                let i = idx_with_id(db.lessons@, lesson_id_of(), lesson_id as int);
                assert(0 <= i < db.lessons@.len() && db.lessons@[i].id == lesson_id);
                lemma_filter_drops_some(db.lessons@, pred, i);
            } else {
                assert forall|i: int| 0 <= i < db.lessons@.len() implies pred(
                    #[trigger] db.lessons@[i],
                ) by {
                    assert(!has_id(db.lessons@, lesson_id_of(), lesson_id as int));
                }
                lemma_filter_all(db.lessons@, pred);
            }
            lemma_filter_keeps_table_wf(
                db.lessons@,
                pred,
                lesson_id_of(),
                db.next_lesson_id as int,
            );
        }
        let removed = n - kept.len();
        db.lessons = kept;
        Ok(removed)
    }
}

} // verus!
