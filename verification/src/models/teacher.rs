//! Teachers: just a name; documents hang off a teacher by id.
use vstd::prelude::*;

verus! {

#[derive(Debug, PartialEq)]
pub struct Teacher {
    pub id: i32,
    pub name: String,
}

impl Clone for Teacher {
    fn clone(&self) -> (res: Self)
        ensures
            res == *self,
    {
        Teacher { id: self.id, name: self.name.clone() }
    }
}

#[derive(Debug)]
pub struct NewTeacher {
    pub name: String,
}

/// Fields left as `None` keep their current value.
#[derive(Debug)]
pub struct UpdateTeacher {
    pub name: Option<String>,
}

} // verus!
