//! Lessons: a topic, a date, and an optional student group. A lesson bound to
//! a group is the anchor of the attendance synchronizer.
use vstd::prelude::*;
use crate::date::Date;
use crate::models::student_group::StudentGroup;

verus! {

#[derive(Debug, PartialEq)]
pub struct Lesson {
    pub id: i32,
    pub topic: String,
    pub scheduled_at: Date,
    pub student_group_id: Option<i32>,
}

impl Clone for Lesson {
    fn clone(&self) -> (res: Self)
        ensures
            res == *self,
    {
        Lesson {
            id: self.id,
            topic: self.topic.clone(),
            scheduled_at: self.scheduled_at,
            student_group_id: self.student_group_id,
        }
    }
}

/// A lesson joined with its group, if it has one that exists.
#[derive(Debug, PartialEq)]
pub struct LessonWithRelations {
    pub lesson: Lesson,
    pub student_group: Option<StudentGroup>,
}

#[derive(Debug)]
pub struct NewLesson {
    pub topic: String,
    pub scheduled_at: Date,
    pub student_group_id: Option<i32>,
}

/// `topic` and `scheduled_at` left as `None` keep their current value;
/// `student_group_id` is always applied, with `None` meaning "no group".
#[derive(Debug)]
pub struct UpdateLesson {
    pub topic: Option<String>,
    pub scheduled_at: Option<Date>,
    pub student_group_id: Option<i32>,
}

} // verus!
