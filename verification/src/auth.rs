//! Credential checking against the users table: the decision half of the
//! session backend. Looking a session's user up again goes through the same
//! store.
use vstd::prelude::*;
use crate::error::AppError;
use crate::models::user::{password_matches, Credentials, User};
use crate::repositories::user_repository::{spec_first_with_username, UserRepository};
use crate::store::{has_id, row_with_id, user_id_of, Database};

verus! {

/// What authentication yields: the first user under the credentials'
/// username, and only if the credentials' password matches that user's
/// stored hash.
pub open spec fn spec_authenticate(db: Database, creds: Credentials) -> Option<User> {
    match spec_first_with_username(db.users@, creds.username@) {
        Some(u) => if password_matches(creds.password@, u.password@) {
            Some(u)
        } else {
            None
        },
        None => None,
    }
}

pub struct AuthBackend;

impl AuthBackend {
    /// Resolves credentials to a user: the username is looked up, then the
    /// password is checked against the stored hash.
    pub fn authenticate(db: &Database, creds: Credentials) -> (r: Result<Option<User>, AppError>)
        requires
            db.wf(),
        ensures
            r matches Ok(user) && user == spec_authenticate(*db, creds),
    {
        let user_result = UserRepository::find_by_username(db, &creds.username);
        match user_result {
            Some(user) => {
                if user.check_password(creds) {
                    Ok(Some(user))
                } else {
                    Ok(None)
                }
            },
            None => Ok(None),
        }
    }

    /// The user a session id resolves to, if it still exists.
    pub fn get_user(db: &Database, user_id: i32) -> (r: Result<Option<User>, AppError>)
        requires
            db.wf(),
        ensures
            r matches Ok(user) && ({
                &&& user is Some <==> has_id(db.users@, user_id_of(), user_id as int)
                &&& user matches Some(u) ==> u == row_with_id(
                    db.users@,
                    user_id_of(),
                    user_id as int,
                )
            }),
    {
        match UserRepository::get(db, user_id) {
            Ok(user) => Ok(Some(user)),
            Err(_) => Ok(None),
        }
    }
}

} // verus!
