//! Parents: a name and free-form additional information.
use vstd::prelude::*;

verus! {

#[derive(Debug, PartialEq)]
pub struct Parent {
    pub id: i32,
    pub name: String,
    pub additional_info: Option<String>,
}

impl Clone for Parent {
    fn clone(&self) -> (res: Self)
        ensures
            res == *self,
    {
        Parent { id: self.id, name: self.name.clone(), additional_info: self.additional_info.clone() }
    }
}

#[derive(Debug)]
pub struct NewParent {
    pub name: String,
    pub additional_info: Option<String>,
}

/// Fields left as `None` keep their current value.
#[derive(Debug)]
pub struct UpdateParent {
    pub name: Option<String>,
    pub additional_info: Option<String>,
}

} // verus!
