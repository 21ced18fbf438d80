//! The relational store: one growable table per entity, with serial ids
//! handed out by per-table counters, plus the spec vocabulary the contracts
//! are written in (id lookup, group membership, a lesson's attendance rows).
use vstd::prelude::*;
use crate::models::attendance::Attendance;
use crate::models::document::Document;
use crate::models::lesson::Lesson;
use crate::models::parent::Parent;
use crate::models::student::Student;
use crate::models::student_group::StudentGroup;
use crate::models::teacher::Teacher;
use crate::models::user::User;

verus! {

/// No two rows share an id.
pub open spec fn unique_ids<T>(rows: Seq<T>, id_of: spec_fn(T) -> int) -> bool {
    forall|i: int, j: int|
        0 <= i < j < rows.len() ==> id_of(#[trigger] rows[i]) != id_of(#[trigger] rows[j])
}

/// Every id is positive and was issued before `next`.
pub open spec fn ids_issued<T>(rows: Seq<T>, id_of: spec_fn(T) -> int, next: int) -> bool {
    forall|i: int| 0 <= i < rows.len() ==> 1 <= id_of(#[trigger] rows[i]) < next
}

/// The shape every serial-id table keeps: unique, issued ids.
pub open spec fn table_wf<T>(rows: Seq<T>, id_of: spec_fn(T) -> int, next: int) -> bool {
    &&& unique_ids(rows, id_of)
    &&& ids_issued(rows, id_of, next)
    &&& 1 <= next
}

pub open spec fn has_id<T>(rows: Seq<T>, id_of: spec_fn(T) -> int, id: int) -> bool {
    exists|i: int| 0 <= i < rows.len() && id_of(#[trigger] rows[i]) == id
}

/// The index of the row carrying `id`; meaningful only under `unique_ids`
/// and `has_id`.
pub open spec fn idx_with_id<T>(rows: Seq<T>, id_of: spec_fn(T) -> int, id: int) -> int {
    choose|i: int| 0 <= i < rows.len() && id_of(#[trigger] rows[i]) == id
}

/// The row carrying `id`; meaningful only under `unique_ids` and `has_id`.
pub open spec fn row_with_id<T>(rows: Seq<T>, id_of: spec_fn(T) -> int, id: int) -> T {
    rows[idx_with_id(rows, id_of, id)]
}

/// Under unique ids, any row found at some index with the right id is the
/// row `row_with_id` denotes.
pub proof fn lemma_row_with_id<T>(rows: Seq<T>, id_of: spec_fn(T) -> int, id: int, i: int)
    requires
        unique_ids(rows, id_of),
        0 <= i < rows.len(),
        id_of(rows[i]) == id,
    ensures
        has_id(rows, id_of, id),
        idx_with_id(rows, id_of, id) == i,
        row_with_id(rows, id_of, id) == rows[i],
{
    assert(has_id(rows, id_of, id));
    let j = idx_with_id(rows, id_of, id);
    assert(0 <= j < rows.len() && id_of(rows[j]) == id) by {
        assert(exists|k: int| 0 <= k < rows.len() && id_of(#[trigger] rows[k]) == id);
    }
    if i != j {
        if i < j {
            assert(id_of(rows[i]) != id_of(rows[j]));
        } else {
            assert(id_of(rows[j]) != id_of(rows[i]));
        }
    }
}

pub open spec fn lesson_id_of() -> spec_fn(Lesson) -> int {
    |l: Lesson| l.id as int
}

pub open spec fn student_id_of() -> spec_fn(Student) -> int {
    |s: Student| s.id as int
}

pub open spec fn student_group_id_of() -> spec_fn(StudentGroup) -> int {
    |g: StudentGroup| g.id as int
}

pub open spec fn parent_id_of() -> spec_fn(Parent) -> int {
    |p: Parent| p.id as int
}

pub open spec fn teacher_id_of() -> spec_fn(Teacher) -> int {
    |t: Teacher| t.id as int
}

pub open spec fn attendance_id_of() -> spec_fn(Attendance) -> int {
    |a: Attendance| a.id as int
}

pub open spec fn user_id_of() -> spec_fn(User) -> int {
    |u: User| u.id as int
}

pub open spec fn document_id_of() -> spec_fn(Document) -> int {
    |d: Document| d.id as int
}

/// The row an optional foreign key joins to: `None` when the key is absent or
/// dangling (a left join's missing side).
pub open spec fn opt_related<T>(rows: Seq<T>, id_of: spec_fn(T) -> int, fk: Option<i32>) -> Option<
    T,
> {
    match fk {
        Some(id) => if has_id(rows, id_of, id as int) {
            Some(row_with_id(rows, id_of, id as int))
        } else {
            None
        },
        None => None,
    }
}

/// Every attendance row points at a lesson id that the lessons table has
/// already issued (though the lesson itself may since have been deleted).
pub open spec fn attendance_lessons_issued(atts: Seq<Attendance>, next_lesson: int) -> bool {
    forall|i: int| 0 <= i < atts.len() ==> 1 <= (#[trigger] atts[i]).lesson_id < next_lesson
}

/// The current members of a group: the students assigned to it, in table
/// order.
pub open spec fn group_students(students: Seq<Student>, group_id: i32) -> Seq<Student> {
    students.filter(|s: Student| s.student_group_id == Some(group_id))
}

/// Every member of a group stands in the students table and is assigned to
/// the group.
pub proof fn lemma_group_students_members(students: Seq<Student>, group_id: i32)
    ensures
        forall|i: int|
            0 <= i < group_students(students, group_id).len() ==> students.contains(
                #[trigger] group_students(students, group_id)[i],
            ),
        forall|i: int|
            0 <= i < group_students(students, group_id).len() ==> (#[trigger] group_students(
                students,
                group_id,
            )[i]).student_group_id == Some(group_id),
    decreases students.len(),
{
    reveal(Seq::filter);
    if students.len() > 0 {
        let t = students.drop_last();
        let f = group_students(t, group_id);
        assert forall|i: int| 0 <= i < t.len() implies t[i] == students[i] by {}
        lemma_group_students_members(t, group_id);
        assert forall|i: int| 0 <= i < f.len() implies students.contains(#[trigger] f[i]) by {
            let j = choose|j: int| 0 <= j < t.len() && t[j] == f[i];
            assert(students[j] == f[i]);
        }
    }
}

/// A lesson's attendance rows, in table order.
pub open spec fn lesson_attendances(atts: Seq<Attendance>, lesson_id: i32) -> Seq<Attendance> {
    atts.filter(|a: Attendance| a.lesson_id == lesson_id)
}

/// The block of attendance rows the synchronizer creates: one fresh row per
/// member, in member order, not yet present, with no skip reason.
pub open spec fn attendance_rows_for(members: Seq<Student>, lesson_id: i32, first_id: int) -> Seq<
    Attendance,
> {
    Seq::new(
        members.len(),
        |i: int|
            Attendance {
                id: (first_id + i) as i32,
                student_id: members[i].id,
                lesson_id,
                is_present: false,
                skip_reason: None,
            },
    )
}

/// The synchronizer's goal: the lesson's attendance rows correspond one to
/// one with the group's current members, all marked absent with no reason.
pub open spec fn synced(
    atts: Seq<Attendance>,
    students: Seq<Student>,
    lesson_id: i32,
    group_id: i32,
) -> bool {
    let rows = lesson_attendances(atts, lesson_id);
    let members = group_students(students, group_id);
    &&& rows.len() == members.len()
    &&& forall|i: int|
        0 <= i < rows.len() ==> (#[trigger] rows[i]).student_id == members[i].id
            && !rows[i].is_present && rows[i].skip_reason is None
}

/// Filtering keeps everything when the predicate holds everywhere.
pub proof fn lemma_filter_all<T>(s: Seq<T>, pred: spec_fn(T) -> bool)
    requires
        forall|i: int| 0 <= i < s.len() ==> pred(#[trigger] s[i]),
    ensures
        s.filter(pred) == s,
    decreases s.len(),
{
    reveal(Seq::filter);
    if s.len() != 0 {
        lemma_filter_all(s.drop_last(), pred);
        assert(s.drop_last().push(s.last()) =~= s);
    }
}

/// Filtering drops everything when the predicate holds nowhere.
pub proof fn lemma_filter_none<T>(s: Seq<T>, pred: spec_fn(T) -> bool)
    requires
        forall|i: int| 0 <= i < s.len() ==> !pred(#[trigger] s[i]),
    ensures
        s.filter(pred) == Seq::<T>::empty(),
    decreases s.len(),
{
    reveal(Seq::filter);
    if s.len() != 0 {
        lemma_filter_none(s.drop_last(), pred);
    }
}

/// One filtering step: pushing a row onto a table extends its filtered view
/// exactly when the row satisfies the predicate.
pub proof fn lemma_filter_push<T>(s: Seq<T>, pred: spec_fn(T) -> bool, x: T)
    ensures
        s.push(x).filter(pred) == if pred(x) {
            s.filter(pred).push(x)
        } else {
            s.filter(pred)
        },
{
    reveal(Seq::filter);
    assert(s.push(x).drop_last() =~= s);
}

/// Filtering strictly shrinks a table that holds a row the predicate drops.
pub proof fn lemma_filter_drops_some<T>(s: Seq<T>, pred: spec_fn(T) -> bool, i: int)
    requires
        0 <= i < s.len(),
        !pred(s[i]),
    ensures
        s.filter(pred).len() < s.len(),
    decreases s.len(),
{
    reveal(Seq::filter);
    let t = s.drop_last();
    if i == s.len() - 1 {
        t.lemma_filter_len(pred);
    } else {
        lemma_filter_drops_some(t, pred, i);
    }
}

/// Filtering a table with unique ids leaves a table with unique ids, every
/// row of which stood in the table before filtering.
pub proof fn lemma_filter_keeps_unique<T>(s: Seq<T>, pred: spec_fn(T) -> bool, id_of: spec_fn(T) -> int)
    requires
        unique_ids(s, id_of),
    ensures
        unique_ids(s.filter(pred), id_of),
        forall|i: int| 0 <= i < s.filter(pred).len() ==> s.contains(#[trigger] s.filter(pred)[i]),
    decreases s.len(),
{
    reveal(Seq::filter);
    if s.len() > 0 {
        let t = s.drop_last();
        let f = t.filter(pred);
        assert forall|i: int| 0 <= i < t.len() implies t[i] == s[i] by {}
        lemma_filter_keeps_unique(t, pred, id_of);
        assert forall|i: int| 0 <= i < f.len() implies s.contains(#[trigger] f[i]) by {
            let j = choose|j: int| 0 <= j < t.len() && t[j] == f[i];
            assert(s[j] == f[i]);
        }
        if pred(s.last()) {
            assert(s.filter(pred) == f.push(s.last()));
            assert forall|i: int| 0 <= i < f.len() implies id_of(#[trigger] f[i]) != id_of(
                s.last(),
            ) by {
                let j = choose|j: int| 0 <= j < t.len() && t[j] == f[i];
                assert(id_of(s[j]) != id_of(s[s.len() - 1]));
            }
        }
    }
}

/// Filtering a table with unique, issued ids leaves a table with unique,
/// issued ids, every row of which stood in the table before filtering.
pub proof fn lemma_filter_keeps_table_wf<T>(
    s: Seq<T>,
    pred: spec_fn(T) -> bool,
    id_of: spec_fn(T) -> int,
    next: int,
)
    requires
        unique_ids(s, id_of),
        ids_issued(s, id_of, next),
    ensures
        unique_ids(s.filter(pred), id_of),
        ids_issued(s.filter(pred), id_of, next),
        forall|i: int| 0 <= i < s.filter(pred).len() ==> s.contains(#[trigger] s.filter(pred)[i]),
{
    lemma_filter_keeps_unique(s, pred, id_of);
    let f = s.filter(pred);
    assert forall|i: int| 0 <= i < f.len() implies 1 <= id_of(#[trigger] f[i]) < next by {
        let j = choose|j: int| 0 <= j < s.len() && s[j] == f[i];
        assert(1 <= id_of(s[j]) < next);
    }
}

/// Appending a block of rows whose ids run consecutively from the table's
/// `next` counter keeps the table well formed under the advanced counter.
pub proof fn lemma_append_block_table_wf<T>(
    pre: Seq<T>,
    add: Seq<T>,
    id_of: spec_fn(T) -> int,
    next: int,
    new_next: int,
)
    requires
        table_wf(pre, id_of, next),
        forall|i: int| 0 <= i < add.len() ==> id_of(#[trigger] add[i]) == next + i,
        new_next >= next + add.len(),
    ensures
        table_wf(pre + add, id_of, new_next),
{
    let post = pre + add;
    assert forall|i: int, j: int| 0 <= i < j < post.len() implies id_of(#[trigger] post[i])
        != id_of(#[trigger] post[j]) by {
        if j < pre.len() {
            assert(post[i] == pre[i] && post[j] == pre[j]);
        } else if i < pre.len() {
            assert(post[i] == pre[i] && post[j] == add[j - pre.len()]);
        } else {
            assert(post[i] == add[i - pre.len()] && post[j] == add[j - pre.len()]);
        }
    }
    assert forall|i: int| 0 <= i < post.len() implies 1 <= id_of(#[trigger] post[i]) < new_next by {
        if i < pre.len() {
            assert(post[i] == pre[i]);
        } else {
            assert(post[i] == add[i - pre.len()]);
        }
    }
}

/// The store: every table, plus the next id each serial table will issue.
/// Document ids are random 128-bit values, so that table has no counter.
pub struct Database {
    pub lessons: Vec<Lesson>,
    pub students: Vec<Student>,
    pub student_groups: Vec<StudentGroup>,
    pub parents: Vec<Parent>,
    pub teachers: Vec<Teacher>,
    pub attendances: Vec<Attendance>,
    pub users: Vec<User>,
    pub documents: Vec<Document>,
    pub next_lesson_id: i32,
    pub next_student_id: i32,
    pub next_student_group_id: i32,
    pub next_parent_id: i32,
    pub next_teacher_id: i32,
    pub next_attendance_id: i32,
    pub next_user_id: i32,
}

impl Database {
    /// Well-formedness: every table keeps unique, issued ids, and attendance
    /// rows never point at a lesson id that was not issued yet.
    pub open spec fn wf(&self) -> bool {
        &&& table_wf(self.lessons@, lesson_id_of(), self.next_lesson_id as int)
        &&& table_wf(self.students@, student_id_of(), self.next_student_id as int)
        &&& table_wf(
            self.student_groups@,
            student_group_id_of(),
            self.next_student_group_id as int,
        )
        &&& table_wf(self.parents@, parent_id_of(), self.next_parent_id as int)
        &&& table_wf(self.teachers@, teacher_id_of(), self.next_teacher_id as int)
        &&& table_wf(self.attendances@, attendance_id_of(), self.next_attendance_id as int)
        &&& table_wf(self.users@, user_id_of(), self.next_user_id as int)
        &&& unique_ids(self.documents@, document_id_of())
        &&& attendance_lessons_issued(self.attendances@, self.next_lesson_id as int)
    }

    pub open spec fn lessons_unchanged(pre: Database, post: Database) -> bool {
        post.lessons@ == pre.lessons@ && post.next_lesson_id == pre.next_lesson_id
    }

    pub open spec fn students_unchanged(pre: Database, post: Database) -> bool {
        post.students@ == pre.students@ && post.next_student_id == pre.next_student_id
    }

    pub open spec fn student_groups_unchanged(pre: Database, post: Database) -> bool {
        post.student_groups@ == pre.student_groups@ && post.next_student_group_id
            == pre.next_student_group_id
    }

    pub open spec fn parents_unchanged(pre: Database, post: Database) -> bool {
        post.parents@ == pre.parents@ && post.next_parent_id == pre.next_parent_id
    }

    pub open spec fn teachers_unchanged(pre: Database, post: Database) -> bool {
        post.teachers@ == pre.teachers@ && post.next_teacher_id == pre.next_teacher_id
    }

    pub open spec fn attendances_unchanged(pre: Database, post: Database) -> bool {
        post.attendances@ == pre.attendances@ && post.next_attendance_id == pre.next_attendance_id
    }

    pub open spec fn users_unchanged(pre: Database, post: Database) -> bool {
        post.users@ == pre.users@ && post.next_user_id == pre.next_user_id
    }

    pub open spec fn documents_unchanged(pre: Database, post: Database) -> bool {
        post.documents@ == pre.documents@
    }

    /// Nothing outside the lessons and attendances tables moved.
    pub open spec fn only_lessons_and_attendances_changed(pre: Database, post: Database) -> bool {
        &&& Self::students_unchanged(pre, post)
        &&& Self::student_groups_unchanged(pre, post)
        &&& Self::parents_unchanged(pre, post)
        &&& Self::teachers_unchanged(pre, post)
        &&& Self::users_unchanged(pre, post)
        &&& Self::documents_unchanged(pre, post)
    }

    pub open spec fn only_lessons_changed(pre: Database, post: Database) -> bool {
        &&& Self::only_lessons_and_attendances_changed(pre, post)
        &&& Self::attendances_unchanged(pre, post)
    }

    pub open spec fn only_attendances_changed(pre: Database, post: Database) -> bool {
        &&& Self::only_lessons_and_attendances_changed(pre, post)
        &&& Self::lessons_unchanged(pre, post)
    }

    pub open spec fn only_students_changed(pre: Database, post: Database) -> bool {
        &&& Self::lessons_unchanged(pre, post)
        &&& Self::student_groups_unchanged(pre, post)
        &&& Self::parents_unchanged(pre, post)
        &&& Self::teachers_unchanged(pre, post)
        &&& Self::attendances_unchanged(pre, post)
        &&& Self::users_unchanged(pre, post)
        &&& Self::documents_unchanged(pre, post)
    }

    pub open spec fn only_student_groups_changed(pre: Database, post: Database) -> bool {
        &&& Self::lessons_unchanged(pre, post)
        &&& Self::students_unchanged(pre, post)
        &&& Self::parents_unchanged(pre, post)
        &&& Self::teachers_unchanged(pre, post)
        &&& Self::attendances_unchanged(pre, post)
        &&& Self::users_unchanged(pre, post)
        &&& Self::documents_unchanged(pre, post)
    }

    pub open spec fn only_parents_changed(pre: Database, post: Database) -> bool {
        &&& Self::lessons_unchanged(pre, post)
        &&& Self::students_unchanged(pre, post)
        &&& Self::student_groups_unchanged(pre, post)
        &&& Self::teachers_unchanged(pre, post)
        &&& Self::attendances_unchanged(pre, post)
        &&& Self::users_unchanged(pre, post)
        &&& Self::documents_unchanged(pre, post)
    }

    pub open spec fn only_teachers_changed(pre: Database, post: Database) -> bool {
        &&& Self::lessons_unchanged(pre, post)
        &&& Self::students_unchanged(pre, post)
        &&& Self::student_groups_unchanged(pre, post)
        &&& Self::parents_unchanged(pre, post)
        &&& Self::attendances_unchanged(pre, post)
        &&& Self::users_unchanged(pre, post)
        &&& Self::documents_unchanged(pre, post)
    }

    pub open spec fn only_users_changed(pre: Database, post: Database) -> bool {
        &&& Self::lessons_unchanged(pre, post)
        &&& Self::students_unchanged(pre, post)
        &&& Self::student_groups_unchanged(pre, post)
        &&& Self::parents_unchanged(pre, post)
        &&& Self::teachers_unchanged(pre, post)
        &&& Self::attendances_unchanged(pre, post)
        &&& Self::documents_unchanged(pre, post)
    }

    pub open spec fn only_documents_changed(pre: Database, post: Database) -> bool {
        &&& Self::lessons_unchanged(pre, post)
        &&& Self::students_unchanged(pre, post)
        &&& Self::student_groups_unchanged(pre, post)
        &&& Self::parents_unchanged(pre, post)
        &&& Self::teachers_unchanged(pre, post)
        &&& Self::attendances_unchanged(pre, post)
        &&& Self::users_unchanged(pre, post)
    }

    /// An empty store.
    pub fn new() -> (db: Database)
        ensures
            db.wf(),
            db.lessons@ == Seq::<Lesson>::empty(),
            db.students@ == Seq::<Student>::empty(),
            db.student_groups@ == Seq::<StudentGroup>::empty(),
            db.parents@ == Seq::<Parent>::empty(),
            db.teachers@ == Seq::<Teacher>::empty(),
            db.attendances@ == Seq::<Attendance>::empty(),
            db.users@ == Seq::<User>::empty(),
            db.documents@ == Seq::<Document>::empty(),
            db.next_lesson_id == 1,
            db.next_student_id == 1,
            db.next_student_group_id == 1,
            db.next_parent_id == 1,
            db.next_teacher_id == 1,
            db.next_attendance_id == 1,
            db.next_user_id == 1,
    {
        Database {
            lessons: Vec::new(),
            students: Vec::new(),
            student_groups: Vec::new(),
            parents: Vec::new(),
            teachers: Vec::new(),
            attendances: Vec::new(),
            users: Vec::new(),
            documents: Vec::new(),
            next_lesson_id: 1,
            next_student_id: 1,
            next_student_group_id: 1,
            next_parent_id: 1,
            next_teacher_id: 1,
            next_attendance_id: 1,
            next_user_id: 1,
        }
    }
}

} // verus!
