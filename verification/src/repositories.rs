//! One repository per table: create/get/update/delete plus the per-entity
//! lookups the services need. Every operation takes the store it works on.
use vstd::prelude::*;
use crate::error::AppError;

pub mod attendance_repository;
pub mod document_repository;
pub mod lesson_repository;
pub mod parent_repository;
pub mod student_group_repository;
pub mod student_repository;
pub mod teacher_repository;
pub mod user_repository;

verus! {

/// The single row a by-id query is expected to yield, or `NotFound`.
pub fn single_result<T>(vec: Vec<T>) -> (r: Result<T, AppError>)
    ensures
        vec@.len() > 0 ==> (r matches Ok(x) && x == vec@[0]),
        vec@.len() == 0 ==> (r matches Err(e) && e matches AppError::NotFound(m) && m@
            == "Record not found"@),
{
    let mut vec = vec;
    if vec.len() == 0 {
        Err(AppError::NotFound("Record not found".to_owned()))
    } else {
        Ok(vec.remove(0))
    }
}

} // verus!
