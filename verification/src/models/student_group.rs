//! Student groups: an optional direction label, a count of free spots, and an
//! optional teacher.
use vstd::prelude::*;
use crate::models::teacher::Teacher;

verus! {

#[derive(Debug, PartialEq)]
pub struct StudentGroup {
    pub id: i32,
    pub direction: Option<String>,
    pub free_spots: i32,
    pub teacher_id: Option<i32>,
}

impl Clone for StudentGroup {
    fn clone(&self) -> (res: Self)
        ensures
            res == *self,
    {
        StudentGroup {
            id: self.id,
            direction: self.direction.clone(),
            free_spots: self.free_spots,
            teacher_id: self.teacher_id,
        }
    }
}

/// A group joined with its teacher, if it has one that exists.
#[derive(Debug, PartialEq)]
pub struct StudentGroupWithRelations {
    pub student_group: StudentGroup,
    pub teacher: Option<Teacher>,
}

#[derive(Debug)]
pub struct NewStudentGroup {
    pub direction: Option<String>,
    pub free_spots: i32,
    pub teacher_id: Option<i32>,
}

/// Fields left as `None` keep their current value.
#[derive(Debug)]
pub struct UpdateStudentGroup {
    pub direction: Option<String>,
    pub free_spots: Option<i32>,
    pub teacher_id: Option<i32>,
}

} // verus!
