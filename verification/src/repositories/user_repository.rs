//! The users table. New rows always start with the role `User`, the store's
//! default; roles only change through `update`.
use vstd::prelude::*;
use vstd::pervasive::VecAdditionalExecFns;
use crate::error::AppError;
use crate::models::user::{NewUserWithPassword, PermissionRole, UpdateUser, User};
use crate::store::{
    Database, has_id, idx_with_id, lemma_filter_all, lemma_filter_drops_some,
    lemma_filter_keeps_table_wf, lemma_filter_push, lemma_row_with_id, row_with_id, user_id_of,
};

verus! {

/// The row `update` leaves behind: fields given as `None` keep their value;
/// the password never changes here.
pub open spec fn spec_apply_user_update(user: User, u: UpdateUser) -> User {
    User {
        id: user.id,
        username: match u.username {
            Some(n) => n,
            None => user.username,
        },
        password: user.password,
        role: match u.role {
            Some(role) => role,
            None => user.role,
        },
        full_name: match u.full_name {
            Some(f) => Some(f),
            None => user.full_name,
        },
    }
}

/// The first user carrying the given username, in table order: the row a
/// by-username lookup yields.
pub open spec fn spec_first_with_username(users: Seq<User>, name: Seq<char>) -> Option<User>
    decreases users.len(),
{
    if users.len() == 0 {
        None
    } else if users[0].username@ == name {
        Some(users[0])
    } else {
        spec_first_with_username(users.drop_first(), name)
    }
}

pub struct UserRepository;

impl UserRepository {
    /// Inserts a user row under the next fresh id, with the default role.
    pub fn create(db: &mut Database, new_user: NewUserWithPassword) -> (r: Result<User, AppError>)
        requires
            old(db).wf(),
        ensures
            final(db).wf(),
            Database::only_users_changed(*old(db), *final(db)),
            old(db).next_user_id < i32::MAX ==> ({
                &&& r matches Ok(u)
                &&& u == (User {
                    id: old(db).next_user_id,
                    username: new_user.username,
                    password: new_user.password,
                    role: PermissionRole::User,
                    full_name: new_user.full_name,
                })
                &&& final(db).users@ == old(db).users@.push(u)
                &&& final(db).next_user_id == old(db).next_user_id + 1
            }),
            old(db).next_user_id == i32::MAX ==> (r matches Err(e) && e is Database
                && *final(db) == *old(db)),
    {
        if db.next_user_id == i32::MAX {
            return Err(AppError::Database("users: id space exhausted".to_owned()));
        }
        let id = db.next_user_id;
        let row = User {
            id,
            username: new_user.username,
            password: new_user.password,
            role: PermissionRole::User,
            full_name: new_user.full_name,
        };
        let result = row.clone();
        db.users.push(row);
        db.next_user_id = id + 1;
        Ok(result)
    }

    /// The user with the given id, or `NotFound`.
    pub fn get(db: &Database, user_id: i32) -> (r: Result<User, AppError>)
        requires
            db.wf(),
        ensures
            r is Ok <==> has_id(db.users@, user_id_of(), user_id as int),
            r matches Ok(u) ==> u == row_with_id(db.users@, user_id_of(), user_id as int),
            r matches Err(e) ==> e matches AppError::NotFound(_),
    {
        let n = db.users.len();
        let mut k: usize = 0;
        while k < n
            invariant
                k <= n,
                n == db.users@.len(),
                db.wf(),
                forall|i: int| 0 <= i < k ==> (#[trigger] db.users@[i]).id != user_id,
            decreases n - k,
        {
            if db.users[k].id == user_id {
                let u = db.users[k].clone();
                proof {
                    lemma_row_with_id(db.users@, user_id_of(), user_id as int, k as int);
                }
                return Ok(u);
            }
            k += 1;
        }
        Err(AppError::NotFound("User not found".to_owned()))
    }

    /// The first user carrying the given username, if any.
    #[verifier::loop_isolation(false)]
    pub fn find_by_username(db: &Database, username: &String) -> (r: Option<User>)
        requires
            db.wf(),
        ensures
            r == spec_first_with_username(db.users@, username@),
    {
        let n = db.users.len();
        let mut k: usize = 0;
        proof {
            assert(db.users@.skip(0) =~= db.users@);
        }
        while k < n
            invariant
                k <= n,
                spec_first_with_username(db.users@, username@) == spec_first_with_username(
                    db.users@.skip(k as int),
                    username@,
                ),
            decreases n - k,
        {
            if db.users[k].username.eq(username) {
                let u = db.users[k].clone();
                proof {
                    assert(db.users@.skip(k as int)[0] == db.users@[k as int]);
                }
                return Some(u);
            }
            proof {
                assert(db.users@.skip(k as int)[0] == db.users@[k as int]);
                assert(db.users@.skip(k as int).drop_first() =~= db.users@.skip(k as int + 1));
            }
            k += 1;
        }
        proof {
            assert(db.users@.skip(n as int) =~= Seq::<User>::empty());
        }
        None
    }

    /// Applies the given field updates to the user with that id.
    pub fn update(db: &mut Database, user_id: i32, updated_user: UpdateUser) -> (r: Result<
        User,
        AppError,
    >)
        requires
            old(db).wf(),
        ensures
            final(db).wf(),
            Database::only_users_changed(*old(db), *final(db)),
            final(db).next_user_id == old(db).next_user_id,
            r is Ok <==> has_id(old(db).users@, user_id_of(), user_id as int),
            r matches Ok(u) ==> ({
                &&& u == spec_apply_user_update(
                    row_with_id(old(db).users@, user_id_of(), user_id as int),
                    updated_user,
                )
                &&& final(db).users@ == old(db).users@.update(
                    idx_with_id(old(db).users@, user_id_of(), user_id as int),
                    u,
                )
            }),
            r matches Err(e) ==> e matches AppError::NotFound(_) && *final(db) == *old(db),
    {
        let n = db.users.len();
        let mut k: usize = 0;
        while k < n
            invariant
                k <= n,
                n == db.users@.len(),
                db.wf(),
                *db == *old(db),
                forall|i: int| 0 <= i < k ==> (#[trigger] db.users@[i]).id != user_id,
            decreases n - k,
        {
            if db.users[k].id == user_id {
                proof {
                    lemma_row_with_id(db.users@, user_id_of(), user_id as int, k as int);
                }
                let current = db.users[k].clone();
                let updated = User {
                    id: current.id,
                    username: match updated_user.username {
                        Some(n) => n,
                        None => current.username,
                    },
                    password: current.password,
                    role: match updated_user.role {
                        Some(role) => role,
                        None => current.role,
                    },
                    full_name: match updated_user.full_name {
                        Some(f) => Some(f),
                        None => current.full_name,
                    },
                };
                let result = updated.clone();
                db.users.set(k, updated);
                return Ok(result);
            }
            k += 1;
        }
        Err(AppError::NotFound("User not found".to_owned()))
    }

    /// Removes the user with that id; the count of removed rows.
    #[verifier::loop_isolation(false)]
    pub fn delete(db: &mut Database, user_id: i32) -> (r: Result<usize, AppError>)
        requires
            old(db).wf(),
        ensures
            final(db).wf(),
            Database::only_users_changed(*old(db), *final(db)),
            final(db).next_user_id == old(db).next_user_id,
            final(db).users@ == old(db).users@.filter(|u: User| u.id != user_id),
            r matches Ok(cnt) && ((cnt > 0) <==> has_id(
                old(db).users@,
                user_id_of(),
                user_id as int,
            )),
    {
        let ghost pred = |u: User| u.id != user_id;
        let n = db.users.len();
        let mut kept: Vec<User> = Vec::new();
        let mut k: usize = 0;
        while k < n
            invariant
                k <= n,
                n == db.users@.len(),
                *db == *old(db),
                kept@ == db.users@.take(k as int).filter(pred),
            decreases n - k,
        {
            if db.users[k].id != user_id {
                kept.push(db.users[k].clone());
            }
            proof {
                let s = db.users@;
                let x = s[k as int];
                lemma_filter_push(s.take(k as int), pred, x);
                assert(s.take(k as int + 1) =~= s.take(k as int).push(x));
            }
            k += 1;
        }
        proof {
            broadcast use Seq::lemma_filter_len;

            assert(db.users@.take(n as int) =~= db.users@);
            if has_id(db.users@, user_id_of(), user_id as int) {
                let i = idx_with_id(db.users@, user_id_of(), user_id as int);
                assert(0 <= i < db.users@.len() && db.users@[i].id == user_id);
                lemma_filter_drops_some(db.users@, pred, i);
            } else {
                assert forall|i: int| 0 <= i < db.users@.len() implies pred(
                    #[trigger] db.users@[i],
                ) by {
                    assert(!has_id(db.users@, user_id_of(), user_id as int));
                }
                lemma_filter_all(db.users@, pred);
            }
            lemma_filter_keeps_table_wf(db.users@, pred, user_id_of(), db.next_user_id as int);
        }
        let removed = n - kept.len();
        db.users = kept;
        Ok(removed)
    }
}

} // verus!
