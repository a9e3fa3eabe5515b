//! The read endpoints: both list every row of `staff_users`.

use vstd::prelude::*;

verus! {

/// Path of the first listing.
pub const USERS_PATH: &'static str = "/api/v1/users";

/// Path of the second listing.
pub const USERS_TWO_PATH: &'static str = "/api/v1/userstwo";

/// The statement behind both listings.
pub const USERS_STATEMENT: &'static str = "SELECT * FROM staff_users";

/// A row of `staff_users`.
#[derive(Debug, PartialEq, Eq)]
pub struct User {
    pub user_id: String,
    pub name: String,
    pub username: String,
    pub mob_phone: String,
    pub access_level: String,
    pub status: String,
    pub a_created: String,
}

/// What a listing answers.
#[derive(Debug, PartialEq, Eq)]
pub enum UsersReply {
    /// `200 OK` with the rows as the body.
    Found(Vec<User>),
    /// `404 Not Found` with a message as the body.
    NotFound(String),
}

/// The reply to a listing, from what the database gave: the rows, or nothing
/// where it could not be asked.
pub open spec fn listing(users: Option<Vec<User>>, reply: UsersReply) -> bool {
    match users {
        Some(rows) => reply == UsersReply::Found(rows),
        None => reply matches UsersReply::NotFound(message) && message@ == "No users found"@,
    }
}

impl UsersReply {
    /// The HTTP status of the reply.
    pub fn status(&self) -> (code: u16)
        ensures
            code == (if self is Found { 200u16 } else { 404u16 }),
    {
        match self {
            UsersReply::Found(_) => 200,
            UsersReply::NotFound(_) => 404,
        }
    }
}

/// Answers `GET /api/v1/users`.
pub fn fetchusers(users: Option<Vec<User>>) -> (reply: UsersReply)
    ensures
        listing(users, reply),
{
    match users {
        Some(rows) => UsersReply::Found(rows),
        None => UsersReply::NotFound("No users found".to_owned()),
    }
}

/// Answers `GET /api/v1/userstwo`.
pub fn fetchuserstwo(users: Option<Vec<User>>) -> (reply: UsersReply)
    ensures
        listing(users, reply),
{
    fetchusers(users)
}

} // verus!
