//! Parents: create, read, update, delete.
use vstd::prelude::*;
use crate::error::AppError;
use crate::models::parent::{NewParent, Parent, UpdateParent};
use crate::repositories::parent_repository::{spec_apply_parent_update, ParentRepository};
use crate::store::{has_id, idx_with_id, parent_id_of, row_with_id, Database};

verus! {

pub struct ParentService;

impl ParentService {
    /// Creates a parent.
    pub fn create(db: &mut Database, new_parent: NewParent) -> (r: Result<Parent, AppError>)
        requires
            old(db).wf(),
        ensures
            final(db).wf(),
            Database::only_parents_changed(*old(db), *final(db)),
            old(db).next_parent_id < i32::MAX ==> ({
                &&& r matches Ok(p)
                &&& p == (Parent {
                    id: old(db).next_parent_id,
                    name: new_parent.name,
                    additional_info: new_parent.additional_info,
                })
                &&& final(db).parents@ == old(db).parents@.push(p)
            }),
            old(db).next_parent_id == i32::MAX ==> (r matches Err(e) && e is Database
                && *final(db) == *old(db)),
    {
        ParentRepository::create(db, new_parent)
    }

    /// The parent with the given id.
    pub fn get(db: &Database, parent_id: i32) -> (r: Result<Parent, AppError>)
        requires
            db.wf(),
        ensures
            r is Ok <==> has_id(db.parents@, parent_id_of(), parent_id as int),
            r matches Ok(p) ==> p == row_with_id(db.parents@, parent_id_of(), parent_id as int),
            r matches Err(e) ==> e matches AppError::NotFound(_),
    {
        ParentRepository::get(db, parent_id)
    }

    /// Applies field updates to the parent with that id.
    pub fn update(db: &mut Database, parent_id: i32, update_parent: UpdateParent) -> (r: Result<
        Parent,
        AppError,
    >)
        requires
            old(db).wf(),
        ensures
            final(db).wf(),
            Database::only_parents_changed(*old(db), *final(db)),
            r is Ok <==> has_id(old(db).parents@, parent_id_of(), parent_id as int),
            r matches Ok(p) ==> ({
                &&& p == spec_apply_parent_update(
                    row_with_id(old(db).parents@, parent_id_of(), parent_id as int),
                    update_parent,
                )
                &&& final(db).parents@ == old(db).parents@.update(
                    idx_with_id(old(db).parents@, parent_id_of(), parent_id as int),
                    p,
                )
            }),
            r matches Err(e) ==> e matches AppError::NotFound(_) && *final(db) == *old(db),
    {
        ParentRepository::update(db, parent_id, update_parent)
    }

    /// Deletes the parent with that id; whether a row was removed.
    pub fn delete(db: &mut Database, parent_id: i32) -> (r: Result<bool, AppError>)
        requires
            old(db).wf(),
        ensures
            final(db).wf(),
            Database::only_parents_changed(*old(db), *final(db)),
            final(db).parents@ == old(db).parents@.filter(|p: Parent| p.id != parent_id),
            r matches Ok(deleted) && deleted == has_id(
                old(db).parents@,
                parent_id_of(),
                parent_id as int,
            ),
    {
        let count = ParentRepository::delete(db, parent_id)?;
        Ok(count > 0)
    }
}

} // verus!
