//! The records the application stores and the events it names.

use vstd::prelude::*;

verus! {

/// An instant in UTC: whole seconds since the Unix epoch and the
/// nanoseconds past them.
#[derive(Clone, Copy, Debug, PartialEq, Eq, Structural)]
pub struct Timestamp {
    pub secs: i64,
    pub nanos: u32,
}

/// A row of the `users` table.
pub struct User {
    pub id: i64,
    pub email: String,
    /// PHC-encoded password hash; never shown to clients.
    pub password_hash: String,
    pub created_at: Timestamp,
}

pub struct UserView {
    pub id: i64,
    pub email: Seq<char>,
    pub password_hash: Seq<char>,
    pub created_at: Timestamp,
}

impl View for User {
    type V = UserView;

    open spec fn view(&self) -> UserView {
        UserView {
            id: self.id,
            email: self.email@,
            password_hash: self.password_hash@,
            created_at: self.created_at,
        }
    }
}

/// A user has registered.
pub struct UserRegistered {
    pub user_id: i64,
    pub email: String,
    pub at: Timestamp,
}

/// A user has logged in.
pub struct UserLoggedIn {
    pub user_id: i64,
    pub at: Timestamp,
}

} // verus!
