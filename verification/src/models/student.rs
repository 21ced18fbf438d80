//! Students: a name, a birth date, and optional links to a parent and to a
//! student group. The group link is what the attendance synchronizer reads.
use vstd::prelude::*;
use crate::date::Date;
use crate::models::parent::Parent;
use crate::models::student_group::StudentGroup;

verus! {

#[derive(Debug, PartialEq)]
pub struct Student {
    pub id: i32,
    pub name: String,
    pub birth_date: Date,
    pub parent_id: Option<i32>,
    pub student_group_id: Option<i32>,
}

impl Clone for Student {
    fn clone(&self) -> (res: Self)
        ensures
            res == *self,
    {
        Student {
            id: self.id,
            name: self.name.clone(),
            birth_date: self.birth_date,
            parent_id: self.parent_id,
            student_group_id: self.student_group_id,
        }
    }
}

/// A student joined with their parent and group, where those links exist.
#[derive(Debug, PartialEq)]
pub struct StudentWithRelations {
    pub student: Student,
    pub parent: Option<Parent>,
    pub student_group: Option<StudentGroup>,
}

#[derive(Debug)]
pub struct NewStudent {
    pub name: String,
    pub birth_date: Date,
    pub parent_id: Option<i32>,
    pub student_group_id: Option<i32>,
}

/// Fields left as `None` keep their current value.
#[derive(Debug)]
pub struct UpdateStudent {
    pub name: Option<String>,
    pub birth_date: Option<Date>,
    pub parent_id: Option<i32>,
    pub student_group_id: Option<i32>,
}

} // verus!
