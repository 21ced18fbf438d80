//! The attendances table. Inserts uphold the foreign keys (the student and
//! the lesson must exist), reads join both sides in, and the bulk operations
//! here — `batch_create` and `delete_by_lesson_id` — are what the lesson
//! service's attendance synchronizer is built from.
use vstd::prelude::*;
use vstd::pervasive::VecAdditionalExecFns;
use crate::error::AppError;
use crate::models::attendance::{
    Attendance, AttendanceWithRelations, NewAttendance, UpdateAttendance,
};
use crate::repositories::lesson_repository::LessonRepository;
use crate::repositories::student_repository::StudentRepository;
use crate::store::{
    attendance_id_of, has_id, idx_with_id, lemma_append_block_table_wf, lemma_filter_all,
    lemma_filter_drops_some, lemma_filter_keeps_table_wf, lemma_filter_push, lemma_row_with_id,
    lesson_id_of, row_with_id, student_id_of, Database,
};

verus! {

/// Both foreign keys of a row resolve: the inner join yields it.
pub open spec fn spec_joinable(db: Database, a: Attendance) -> bool {
    &&& has_id(db.students@, student_id_of(), a.student_id as int)
    &&& has_id(db.lessons@, lesson_id_of(), a.lesson_id as int)
}

/// The read shape of a row: joined with its student and its lesson.
pub open spec fn spec_attendance_with_relations(db: Database, a: Attendance) -> AttendanceWithRelations {
    AttendanceWithRelations {
        attendance: a,
        student: row_with_id(db.students@, student_id_of(), a.student_id as int),
        lesson: row_with_id(db.lessons@, lesson_id_of(), a.lesson_id as int),
    }
}

/// The row `update` leaves behind: fields given as `None` keep their value;
/// the student and lesson links never change.
pub open spec fn spec_apply_attendance_update(a: Attendance, u: UpdateAttendance) -> Attendance {
    Attendance {
        id: a.id,
        student_id: a.student_id,
        lesson_id: a.lesson_id,
        is_present: match u.is_present {
            Some(p) => p,
            None => a.is_present,
        },
        skip_reason: match u.skip_reason {
            Some(s) => Some(s),
            None => a.skip_reason,
        },
    }
}

/// The rows a bulk insert adds: the given values under consecutive ids
/// starting at `first_id`.
pub open spec fn spec_inserted_attendances(ns: Seq<NewAttendance>, first_id: int) -> Seq<
    Attendance,
> {
    Seq::new(
        ns.len(),
        |i: int|
            Attendance {
                id: (first_id + i) as i32,
                student_id: ns[i].student_id,
                lesson_id: ns[i].lesson_id,
                is_present: ns[i].is_present,
                skip_reason: ns[i].skip_reason,
            },
    )
}

/// Both foreign keys of every given value resolve.
pub open spec fn spec_all_joinable(db: Database, ns: Seq<NewAttendance>) -> bool {
    forall|i: int|
        0 <= i < ns.len() ==> {
            &&& has_id(db.students@, student_id_of(), (#[trigger] ns[i]).student_id as int)
            &&& has_id(db.lessons@, lesson_id_of(), ns[i].lesson_id as int)
        }
}

/// A bulk insert succeeds exactly when the id space can seat every row and
/// every row's foreign keys resolve.
pub open spec fn spec_batch_create_ok(db: Database, ns: Seq<NewAttendance>) -> bool {
    &&& db.next_attendance_id + ns.len() <= i32::MAX
    &&& spec_all_joinable(db, ns)
}

pub struct AttendanceRepository;

impl AttendanceRepository {
    /// Joins one row with its student and lesson; `None` where a foreign key
    /// dangles (the inner join drops the row).
    fn join_row(db: &Database, a: Attendance) -> (r: Option<AttendanceWithRelations>)
        requires
            db.wf(),
        ensures
            r is Some <==> spec_joinable(*db, a),
            r matches Some(ar) ==> ar == spec_attendance_with_relations(*db, a),
    {
        let student = StudentRepository::find(db, a.student_id);
        let lesson = LessonRepository::find(db, a.lesson_id);
        match (student, lesson) {
            (Some(s), Some(l)) => Some(
                AttendanceWithRelations { attendance: a, student: s, lesson: l },
            ),
            _ => None,
        }
    }

    /// Inserts one attendance row under the next fresh id; returns it joined.
    /// Fails, leaving the store untouched, when a foreign key dangles or the
    /// id space is exhausted.
    pub fn create(db: &mut Database, new_attendance: NewAttendance) -> (r: Result<
        AttendanceWithRelations,
        AppError,
    >)
        requires
            old(db).wf(),
        ensures
            final(db).wf(),
            Database::only_attendances_changed(*old(db), *final(db)),
            r is Ok <==> spec_batch_create_ok(*old(db), seq![new_attendance]),
            r matches Ok(ar) ==> ({
                &&& ar.attendance == (Attendance {
                    id: old(db).next_attendance_id,
                    student_id: new_attendance.student_id,
                    lesson_id: new_attendance.lesson_id,
                    is_present: new_attendance.is_present,
                    skip_reason: new_attendance.skip_reason,
                })
                &&& ar == spec_attendance_with_relations(*old(db), ar.attendance)
                &&& final(db).attendances@ == old(db).attendances@.push(ar.attendance)
                &&& final(db).next_attendance_id == old(db).next_attendance_id + 1
            }),
            r matches Err(e) ==> e is Database && *final(db) == *old(db),
    {
        let ghost ns = seq![new_attendance];
        if db.next_attendance_id == i32::MAX {
            return Err(AppError::Database("attendances: id space exhausted".to_owned()));
        }
        let student = StudentRepository::find(db, new_attendance.student_id);
        let lesson = LessonRepository::find(db, new_attendance.lesson_id);
        let (student, lesson) = match (student, lesson) {
            (Some(s), Some(l)) => (s, l),
            _ => {
                proof {
                    assert(ns[0] == new_attendance);
                }
                return Err(
                    AppError::Database("attendances: student or lesson does not exist".to_owned()),
                );
            },
        };
        let id = db.next_attendance_id;
        let row = Attendance {
            id,
            student_id: new_attendance.student_id,
            lesson_id: new_attendance.lesson_id,
            is_present: new_attendance.is_present,
            skip_reason: new_attendance.skip_reason,
        };
        let result = row.clone();
        db.attendances.push(row);
        db.next_attendance_id = id + 1;
        proof {
            assert(ns[0] == new_attendance);
            assert(spec_batch_create_ok(*old(db), ns));
        }
        Ok(AttendanceWithRelations { attendance: result, student, lesson })
    }

    /// Inserts every given value under consecutive fresh ids, all or
    /// nothing; returns the new rows joined, in the given order.
    #[verifier::loop_isolation(false)]
    pub fn batch_create(db: &mut Database, new_attendances: Vec<NewAttendance>) -> (r: Result<
        Vec<AttendanceWithRelations>,
        AppError,
    >)
        requires
            old(db).wf(),
        ensures
            final(db).wf(),
            Database::only_attendances_changed(*old(db), *final(db)),
            r is Ok <==> spec_batch_create_ok(*old(db), new_attendances@),
            r matches Ok(ars) ==> ({
                let added = spec_inserted_attendances(
                    new_attendances@,
                    old(db).next_attendance_id as int,
                );
                &&& final(db).attendances@ == old(db).attendances@ + added
                &&& final(db).next_attendance_id == old(db).next_attendance_id
                    + new_attendances@.len()
                &&& ars@.len() == added.len()
                &&& forall|i: int|
                    0 <= i < ars@.len() ==> #[trigger] ars@[i] == spec_attendance_with_relations(
                        *old(db),
                        added[i],
                    )
            }),
            r matches Err(e) ==> e is Database && *final(db) == *old(db),
    {
        let cnt = new_attendances.len();
        let headroom = i32::MAX - db.next_attendance_id;
        if cnt > headroom as usize {
            return Err(AppError::Database("attendances: id space exhausted".to_owned()));
        }
        let mut k: usize = 0;
        while k < cnt
            invariant
                k <= cnt,
                *db == *old(db),
                forall|i: int|
                    0 <= i < k ==> {
                        &&& has_id(
                            db.students@,
                            student_id_of(),
                            (#[trigger] new_attendances@[i]).student_id as int,
                        )
                        &&& has_id(db.lessons@, lesson_id_of(), new_attendances@[i].lesson_id as int)
                    },
            decreases cnt - k,
        {
            let fk_ok = {
                let student = StudentRepository::find(db, new_attendances[k].student_id);
                let lesson = LessonRepository::find(db, new_attendances[k].lesson_id);
                student.is_some() && lesson.is_some()
            };
            if !fk_ok {
                return Err(
                    AppError::Database("attendances: student or lesson does not exist".to_owned()),
                );
            }
            k += 1;
        }
        let ghost first = db.next_attendance_id as int;
        let ghost added = spec_inserted_attendances(new_attendances@, first);
        let mut k: usize = 0;
        while k < cnt
            invariant
                k <= cnt,
                db.attendances@ == old(db).attendances@ + added.take(k as int),
                Database::only_attendances_changed(*old(db), *db),
                db.next_attendance_id == old(db).next_attendance_id,
            decreases cnt - k,
        {
            let id = db.next_attendance_id + (k as i32);
            let na = new_attendances[k].clone();
            let row = Attendance {
                id,
                student_id: na.student_id,
                lesson_id: na.lesson_id,
                is_present: na.is_present,
                skip_reason: na.skip_reason,
            };
            db.attendances.push(row);
            proof {
                assert(added.take(k as int + 1) =~= added.take(k as int).push(added[k as int]));
                assert(db.attendances@ == old(db).attendances@ + added.take(k as int + 1));
            }
            k += 1;
        }
        db.next_attendance_id = db.next_attendance_id + (cnt as i32);
        proof {
            assert(added.take(cnt as int) =~= added);
            lemma_append_block_table_wf(
                old(db).attendances@,
                added,
                attendance_id_of(),
                first,
                db.next_attendance_id as int,
            );
            assert forall|i: int| 0 <= i < db.attendances@.len() implies 1 <= (
            #[trigger] db.attendances@[i]).lesson_id < db.next_lesson_id by {
                let pre = old(db).attendances@;
                if i >= pre.len() {
                    assert(db.attendances@[i] == added[i - pre.len()]);
                    let j = i - pre.len();
                    let lid = new_attendances@[j].lesson_id as int;
                    assert(has_id(db.lessons@, lesson_id_of(), lid));
                    let w = idx_with_id(db.lessons@, lesson_id_of(), lid);
                    assert(0 <= w < db.lessons@.len() && lesson_id_of()(db.lessons@[w]) == lid);
                }
            }
        }
        let mut results: Vec<AttendanceWithRelations> = Vec::new();
        let base = db.attendances.len() - cnt;
        let mut k: usize = 0;
        while k < cnt
            invariant
                k <= cnt,
                results@.len() == k,
                forall|i: int|
                    0 <= i < k ==> #[trigger] results@[i] == spec_attendance_with_relations(
                        *old(db),
                        added[i],
                    ),
            decreases cnt - k,
        {
            let row = db.attendances[base + k].clone();
            let joined = Self::join_row(db, row);
            match joined {
                Some(ar) => results.push(ar),
                None => {
                    proof {
                        assert(false);
                    }
                },
            }
            k += 1;
        }
        Ok(results)
    }

    /// The row with the given id joined with its student and lesson, or
    /// `NotFound` — also when the row exists but a foreign key dangles, since
    /// the inner join then yields nothing.
    pub fn get(db: &Database, attendance_id: i32) -> (r: Result<AttendanceWithRelations, AppError>)
        requires
            db.wf(),
        ensures
            r is Ok <==> has_id(db.attendances@, attendance_id_of(), attendance_id as int)
                && spec_joinable(
                *db,
                row_with_id(db.attendances@, attendance_id_of(), attendance_id as int),
            ),
            r matches Ok(ar) ==> ar == spec_attendance_with_relations(
                *db,
                row_with_id(db.attendances@, attendance_id_of(), attendance_id as int),
            ),
            r matches Err(e) ==> e matches AppError::NotFound(_),
    {
        let n = db.attendances.len();
        let mut k: usize = 0;
        while k < n
            invariant
                k <= n,
                n == db.attendances@.len(),
                db.wf(),
                forall|i: int| 0 <= i < k ==> (#[trigger] db.attendances@[i]).id != attendance_id,
            decreases n - k,
        {
            if db.attendances[k].id == attendance_id {
                proof {
                    lemma_row_with_id(
                        db.attendances@,
                        attendance_id_of(),
                        attendance_id as int,
                        k as int,
                    );
                }
                let a = db.attendances[k].clone();
                return match Self::join_row(db, a) {
                    Some(ar) => Ok(ar),
                    None => Err(AppError::NotFound("Record not found".to_owned())),
                };
            }
            k += 1;
        }
        Err(AppError::NotFound("Record not found".to_owned()))
    }

    /// Every row of the given lesson whose foreign keys resolve, in table
    /// order, joined — what the inner join yields for the lesson.
    #[verifier::loop_isolation(false)]
    pub fn get_by_lesson_id(db: &Database, lesson_id: i32) -> (r: Result<
        Vec<AttendanceWithRelations>,
        AppError,
    >)
        requires
            db.wf(),
        ensures
            r matches Ok(ars) && ({
                let rows = db.attendances@.filter(
                    |a: Attendance| a.lesson_id == lesson_id && spec_joinable(*db, a),
                );
                &&& ars@.len() == rows.len()
                &&& forall|i: int|
                    0 <= i < ars@.len() ==> #[trigger] ars@[i] == spec_attendance_with_relations(
                        *db,
                        rows[i],
                    )
            }),
    {
        let ghost keep = |a: Attendance| a.lesson_id == lesson_id && spec_joinable(*db, a);
        let n = db.attendances.len();
        let mut found: Vec<AttendanceWithRelations> = Vec::new();
        let mut k: usize = 0;
        while k < n
            invariant
                k <= n,
                n == db.attendances@.len(),
                found@.len() == db.attendances@.take(k as int).filter(keep).len(),
                forall|i: int|
                    0 <= i < found@.len() ==> #[trigger] found@[i]
                        == spec_attendance_with_relations(
                        *db,
                        db.attendances@.take(k as int).filter(keep)[i],
                    ),
            decreases n - k,
        {
            if db.attendances[k].lesson_id == lesson_id {
                let a = db.attendances[k].clone();
                match Self::join_row(db, a) {
                    Some(ar) => found.push(ar),
                    None => (),
                }
            }
            proof {
                let s = db.attendances@;
                let x = s[k as int];
                lemma_filter_push(s.take(k as int), keep, x);
                assert(s.take(k as int + 1) =~= s.take(k as int).push(x));
            }
            k += 1;
        }
        proof {
            assert(db.attendances@.take(n as int) =~= db.attendances@);
        }
        Ok(found)
    }

    /// Applies the given field updates to the row with that id, then reads it
    /// back joined. These are two separate statements: the update lands even
    /// when the read-back then fails on a dangling foreign key.
    pub fn update(
        db: &mut Database,
        attendance_id: i32,
        updated_attendance: UpdateAttendance,
    ) -> (r: Result<AttendanceWithRelations, AppError>)
        requires
            old(db).wf(),
        ensures
            final(db).wf(),
            Database::only_attendances_changed(*old(db), *final(db)),
            final(db).next_attendance_id == old(db).next_attendance_id,
            !has_id(old(db).attendances@, attendance_id_of(), attendance_id as int) ==> (
            r matches Err(e) && e matches AppError::NotFound(_) && *final(db) == *old(db)),
            has_id(old(db).attendances@, attendance_id_of(), attendance_id as int) ==> ({
                let updated = spec_apply_attendance_update(
                    row_with_id(old(db).attendances@, attendance_id_of(), attendance_id as int),
                    updated_attendance,
                );
                &&& final(db).attendances@ == old(db).attendances@.update(
                    idx_with_id(old(db).attendances@, attendance_id_of(), attendance_id as int),
                    updated,
                )
                &&& spec_joinable(*old(db), updated) ==> (r matches Ok(ar) && ar
                    == spec_attendance_with_relations(*final(db), updated))
                &&& !spec_joinable(*old(db), updated) ==> (r matches Err(e) && e matches AppError::NotFound(_))
            }),
    {
        let n = db.attendances.len();
        let mut k: usize = 0;
        while k < n
            invariant
                k <= n,
                n == db.attendances@.len(),
                db.wf(),
                *db == *old(db),
                forall|i: int| 0 <= i < k ==> (#[trigger] db.attendances@[i]).id != attendance_id,
            decreases n - k,
        {
            if db.attendances[k].id == attendance_id {
                proof {
                    lemma_row_with_id(
                        db.attendances@,
                        attendance_id_of(),
                        attendance_id as int,
                        k as int,
                    );
                }
                let current = db.attendances[k].clone();
                let updated = Attendance {
                    id: current.id,
                    student_id: current.student_id,
                    lesson_id: current.lesson_id,
                    is_present: match updated_attendance.is_present {
                        Some(p) => p,
                        None => current.is_present,
                    },
                    skip_reason: match updated_attendance.skip_reason {
                        Some(s) => Some(s),
                        None => current.skip_reason,
                    },
                };
                let row = updated.clone();
                db.attendances.set(k, updated);
                return match Self::join_row(db, row) {
                    Some(ar) => Ok(ar),
                    None => Err(AppError::NotFound("Record not found".to_owned())),
                };
            }
            k += 1;
        }
        Err(AppError::NotFound("Record not found".to_owned()))
    }

    /// Removes the row with that id; the count of removed rows.
    #[verifier::loop_isolation(false)]
    pub fn delete(db: &mut Database, attendance_id: i32) -> (r: Result<usize, AppError>)
        requires
            old(db).wf(),
        ensures
            final(db).wf(),
            Database::only_attendances_changed(*old(db), *final(db)),
            final(db).next_attendance_id == old(db).next_attendance_id,
            final(db).attendances@ == old(db).attendances@.filter(
                |a: Attendance| a.id != attendance_id,
            ),
            r matches Ok(cnt) && ((cnt > 0) <==> has_id(
                old(db).attendances@,
                attendance_id_of(),
                attendance_id as int,
            )),
    {
        let ghost pred = |a: Attendance| a.id != attendance_id;
        let n = db.attendances.len();
        let mut kept: Vec<Attendance> = Vec::new();
        let mut k: usize = 0;
        while k < n
            invariant
                k <= n,
                n == db.attendances@.len(),
                *db == *old(db),
                kept@ == db.attendances@.take(k as int).filter(pred),
            decreases n - k,
        {
            if db.attendances[k].id != attendance_id {
                kept.push(db.attendances[k].clone());
            }
            proof {
                let s = db.attendances@;
                let x = s[k as int];
                lemma_filter_push(s.take(k as int), pred, x);
                assert(s.take(k as int + 1) =~= s.take(k as int).push(x));
            }
            k += 1;
        }
        proof {
            broadcast use Seq::lemma_filter_len;

            assert(db.attendances@.take(n as int) =~= db.attendances@);
            if has_id(db.attendances@, attendance_id_of(), attendance_id as int) {
                let i = idx_with_id(db.attendances@, attendance_id_of(), attendance_id as int);
                assert(0 <= i < db.attendances@.len() && db.attendances@[i].id == attendance_id);
                lemma_filter_drops_some(db.attendances@, pred, i);
            } else {
                assert forall|i: int| 0 <= i < db.attendances@.len() implies pred(
                    #[trigger] db.attendances@[i],
                ) by {
                    assert(!has_id(db.attendances@, attendance_id_of(), attendance_id as int));
                }
                lemma_filter_all(db.attendances@, pred);
            }
            lemma_filter_keeps_table_wf(
                db.attendances@,
                pred,
                attendance_id_of(),
                db.next_attendance_id as int,
            );
            assert forall|i: int|
                0 <= i < db.attendances@.filter(pred).len() implies 1 <= (#[trigger] db.attendances@.filter(
                pred,
            )[i]).lesson_id < db.next_lesson_id by {
                let f = db.attendances@.filter(pred);
                assert(db.attendances@.contains(f[i]));
                let w = choose|w: int| 0 <= w < db.attendances@.len() && db.attendances@[w] == f[i];
                assert(1 <= db.attendances@[w].lesson_id < db.next_lesson_id);
            }
        }
        let removed = n - kept.len();
        db.attendances = kept;
        Ok(removed)
    }

    /// Removes every row of the given lesson; the count of removed rows.
    #[verifier::loop_isolation(false)]
    pub fn delete_by_lesson_id(db: &mut Database, lesson_id: i32) -> (r: Result<usize, AppError>)
        requires
            old(db).wf(),
        ensures
            final(db).wf(),
            Database::only_attendances_changed(*old(db), *final(db)),
            final(db).next_attendance_id == old(db).next_attendance_id,
            final(db).attendances@ == old(db).attendances@.filter(
                |a: Attendance| a.lesson_id != lesson_id,
            ),
            r matches Ok(cnt) && cnt == old(db).attendances@.len() - final(db).attendances@.len(),
    {
        let ghost pred = |a: Attendance| a.lesson_id != lesson_id;
        let n = db.attendances.len();
        let mut kept: Vec<Attendance> = Vec::new();
        let mut k: usize = 0;
        while k < n
            invariant
                k <= n,
                n == db.attendances@.len(),
                *db == *old(db),
                kept@ == db.attendances@.take(k as int).filter(pred),
            decreases n - k,
        {
            if db.attendances[k].lesson_id != lesson_id {
                kept.push(db.attendances[k].clone());
            }
            proof {
                let s = db.attendances@;
                let x = s[k as int];
                lemma_filter_push(s.take(k as int), pred, x);
                assert(s.take(k as int + 1) =~= s.take(k as int).push(x));
            }
            k += 1;
        }
        proof {
            broadcast use Seq::lemma_filter_len;

            assert(db.attendances@.take(n as int) =~= db.attendances@);
            lemma_filter_keeps_table_wf(
                db.attendances@,
                pred,
                attendance_id_of(),
                db.next_attendance_id as int,
            );
            assert forall|i: int|
                0 <= i < db.attendances@.filter(pred).len() implies 1 <= (#[trigger] db.attendances@.filter(
                pred,
            )[i]).lesson_id < db.next_lesson_id by {
                let f = db.attendances@.filter(pred);
                assert(db.attendances@.contains(f[i]));
                let w = choose|w: int| 0 <= w < db.attendances@.len() && db.attendances@[w] == f[i];
                assert(1 <= db.attendances@[w].lesson_id < db.next_lesson_id);
            }
        }
        let removed = n - kept.len();
        db.attendances = kept;
        Ok(removed)
    }
}

} // verus!
