//! Users and credentials. Passwords are kept only as salted PHC-format
//! hashes; verifying and producing those hashes is delegated to the
//! `password_auth` crate behind the two trusted wrappers below.
use vstd::prelude::*;

verus! {

/// Whether `password` verifies against the PHC-format `hash`: the meaning of
/// `password_auth::verify_password`, which depends on the two strings alone.
pub uninterp spec fn password_matches(password: Seq<char>, hash: Seq<char>) -> bool;

/// Relies on `password_auth::verify_password`: returns `Ok` exactly when the
/// password verifies against the hash, deterministically in both arguments.
#[verifier::external_body]
fn verify_password_hash(password: &str, hash: &str) -> (r: bool)
    ensures
        r == password_matches(password@, hash@),
{
    password_auth::verify_password(password, hash).is_ok()
}

/// Relies on `password_auth::generate_hash`: hashes the password under a fresh
/// random salt, and the crate guarantees the result verifies against the same
/// password (its own round-trip test). The length bound keeps the password
/// under the hash algorithm's input limit, inside which the call cannot panic.
#[verifier::external_body]
fn generate_password_hash(password: &str) -> (r: String)
    requires
        password@.len() < 0x40000000,
    ensures
        password_matches(password@, r@),
{
    password_auth::generate_hash(password)
}

#[derive(Debug, Clone, Copy, PartialEq, Eq, Structural)]
pub enum PermissionRole {
    User,
    Teacher,
    Director,
    Admin,
}

pub struct User {
    pub id: i32,
    pub username: String,
    pub password: String,
    pub role: PermissionRole,
    pub full_name: Option<String>,
}

impl Clone for User {
    fn clone(&self) -> (res: Self)
        ensures
            res == *self,
    {
        User {
            id: self.id,
            username: self.username.clone(),
            password: self.password.clone(),
            role: self.role,
            full_name: self.full_name.clone(),
        }
    }
}

impl User {
    /// Whether the (plaintext) password carried by `creds` matches this
    /// user's stored hash.
    pub fn check_password(&self, creds: Credentials) -> (r: bool)
        ensures
            r == password_matches(creds.password@, self.password@),
    {
        verify_password_hash(creds.password.as_str(), self.password.as_str())
    }
}

#[derive(Debug)]
pub struct NewUser {
    pub full_name: Option<String>,
}

/// The insert shape of a user: credentials plus profile fields. Built through
/// `new` so the password stored here is always an already-generated hash.
pub struct NewUserWithPassword {
    pub username: String,
    pub password: String,
    pub full_name: Option<String>,
}

impl NewUserWithPassword {
    pub fn new(new_user: NewUser, creds: Credentials) -> (r: Self)
        ensures
            r.username == creds.username,
            r.password == creds.password,
            r.full_name == new_user.full_name,
    {
        NewUserWithPassword {
            username: creds.username,
            password: creds.password,
            full_name: new_user.full_name,
        }
    }
}

/// Fields left as `None` keep their current value.
#[derive(Debug)]
pub struct UpdateUser {
    pub username: Option<String>,
    pub role: Option<PermissionRole>,
    pub full_name: Option<String>,
}

pub struct Credentials {
    pub username: String,
    pub password: String,
}

impl Clone for Credentials {
    fn clone(&self) -> (res: Self)
        ensures
            res == *self,
    {
        Credentials { username: self.username.clone(), password: self.password.clone() }
    }
}

impl Credentials {
    /// Credentials for storing: the password is replaced by a fresh salted
    /// hash of it, which verifies against the original password.
    pub fn new(new_username: &str, new_password: &str) -> (r: Self)
        requires
            new_password@.len() < 0x40000000,
        ensures
            r.username@ == new_username@,
            password_matches(new_password@, r.password@),
    {
        Credentials {
            username: new_username.to_owned(),
            password: generate_password_hash(new_password),
        }
    }

    /// Credentials exactly as a login form carries them: the password field
    /// still holds what the client typed.
    pub fn from_form(username: String, password: String) -> (r: Self)
        ensures
            r.username == username,
            r.password == password,
    {
        Credentials { username, password }
    }
}

} // verus!
