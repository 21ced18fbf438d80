//! Users: create (with hashed credentials), read, update, delete.
use vstd::prelude::*;
use crate::error::AppError;
use crate::models::user::{
    Credentials, NewUser, NewUserWithPassword, PermissionRole, UpdateUser, User,
};
use crate::repositories::user_repository::{spec_apply_user_update, UserRepository};
use crate::store::{has_id, idx_with_id, row_with_id, user_id_of, Database};

verus! {

pub struct UserService;

impl UserService {
    /// Creates a user from profile fields and credentials: the stored row
    /// carries the credentials' username and password (a hash, when the
    /// credentials were built for storing) and the default role.
    pub fn create(db: &mut Database, new_user: NewUser, creds: Credentials) -> (r: Result<
        User,
        AppError,
    >)
        requires
            old(db).wf(),
        ensures
            final(db).wf(),
            Database::only_users_changed(*old(db), *final(db)),
            old(db).next_user_id < i32::MAX ==> ({
                &&& r matches Ok(u)
                &&& u == (User {
                    id: old(db).next_user_id,
                    username: creds.username,
                    password: creds.password,
                    role: PermissionRole::User,
                    full_name: new_user.full_name,
                })
                &&& final(db).users@ == old(db).users@.push(u)
            }),
            old(db).next_user_id == i32::MAX ==> (r matches Err(e) && e is Database
                && *final(db) == *old(db)),
    {
        let new_user = NewUserWithPassword::new(new_user, creds);
        UserRepository::create(db, new_user)
    }

    /// The user with the given id.
    pub fn get(db: &Database, user_id: i32) -> (r: Result<User, AppError>)
        requires
            db.wf(),
        ensures
            r is Ok <==> has_id(db.users@, user_id_of(), user_id as int),
            r matches Ok(u) ==> u == row_with_id(db.users@, user_id_of(), user_id as int),
            r matches Err(e) ==> e matches AppError::NotFound(_),
    {
        UserRepository::get(db, user_id)
    }

    /// Applies field updates to the user with that id.
    pub fn update(db: &mut Database, user_id: i32, update_user: UpdateUser) -> (r: Result<
        User,
        AppError,
    >)
        requires
            old(db).wf(),
        ensures
            final(db).wf(),
            Database::only_users_changed(*old(db), *final(db)),
            r is Ok <==> has_id(old(db).users@, user_id_of(), user_id as int),
            r matches Ok(u) ==> ({
                &&& u == spec_apply_user_update(
                    row_with_id(old(db).users@, user_id_of(), user_id as int),
                    update_user,
                )
                &&& final(db).users@ == old(db).users@.update(
                    idx_with_id(old(db).users@, user_id_of(), user_id as int),
                    u,
                )
            }),
            r matches Err(e) ==> e matches AppError::NotFound(_) && *final(db) == *old(db),
    {
        UserRepository::update(db, user_id, update_user)
    }

    /// Deletes the user with that id; whether a row was removed.
    pub fn delete(db: &mut Database, user_id: i32) -> (r: Result<bool, AppError>)
        requires
            old(db).wf(),
        ensures
            final(db).wf(),
            Database::only_users_changed(*old(db), *final(db)),
            final(db).users@ == old(db).users@.filter(|u: User| u.id != user_id),
            r matches Ok(deleted) && deleted == has_id(
                old(db).users@,
                user_id_of(),
                user_id as int,
            ),
    {
        let count = UserRepository::delete(db, user_id)?;
        Ok(count > 0)
    }
}

} // verus!
