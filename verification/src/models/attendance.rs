//! Attendance rows: one student at one lesson, with a presence flag and an
//! optional reason for skipping.
use vstd::prelude::*;
use crate::models::lesson::Lesson;
use crate::models::student::Student;

verus! {

#[derive(Debug, PartialEq)]
pub struct Attendance {
    pub id: i32,
    pub student_id: i32,
    pub lesson_id: i32,
    pub is_present: bool,
    pub skip_reason: Option<String>,
}

impl Clone for Attendance {
    fn clone(&self) -> (res: Self)
        ensures
            res == *self,
    {
        Attendance {
            id: self.id,
            student_id: self.student_id,
            lesson_id: self.lesson_id,
            is_present: self.is_present,
            skip_reason: self.skip_reason.clone(),
        }
    }
}

/// An attendance row joined with its student and its lesson.
#[derive(Debug, PartialEq)]
pub struct AttendanceWithRelations {
    pub attendance: Attendance,
    pub student: Student,
    pub lesson: Lesson,
}

#[derive(Debug)]
pub struct NewAttendance {
    pub student_id: i32,
    pub lesson_id: i32,
    pub is_present: bool,
    pub skip_reason: Option<String>,
}

impl Clone for NewAttendance {
    fn clone(&self) -> (res: Self)
        ensures
            res == *self,
    {
        NewAttendance {
            student_id: self.student_id,
            lesson_id: self.lesson_id,
            is_present: self.is_present,
            skip_reason: self.skip_reason.clone(),
        }
    }
}

/// Fields left as `None` keep their current value.
#[derive(Debug)]
pub struct UpdateAttendance {
    pub is_present: Option<bool>,
    pub skip_reason: Option<String>,
}

} // verus!
