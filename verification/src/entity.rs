//! The stored form of a user.

use vstd::prelude::*;
use crate::timestamp::Timestamp;

verus! {

/// A user as the registry stores it, password hash included.
/// Only [`crate::dto::UserResponseDto`] leaves the service.
#[derive(Debug, Clone)]
pub struct UserEntity {
    /// The key under which the registry stores the user.
    pub id: i32,
    /// The display name.
    pub username: String,
    /// The registered email address.
    pub email: String,
    /// The stored form of the password, never the password itself.
    pub password_hash: String,
    /// When the record was created.
    pub created_at: Timestamp,
}

/// The mathematical model of a user record.
pub struct UserView {
    pub id: i32,
    pub username: Seq<char>,
    pub email: Seq<char>,
    pub password_hash: Seq<char>,
    pub created_at: (i64, u32),
}

impl View for UserEntity {
    type V = UserView;

    open spec fn view(&self) -> UserView {
        UserView {
            id: self.id,
            username: self.username@,
            email: self.email@,
            password_hash: self.password_hash@,
            created_at: self.created_at@,
        }
    }
}

impl UserEntity {
    /// A copy of the record with every field equal.
    pub fn duplicate(&self) -> (copy: UserEntity)
        ensures
            copy == *self,
            copy@ == self@,
    {
        UserEntity {
            id: self.id,
            username: self.username.clone(),
            email: self.email.clone(),
            password_hash: self.password_hash.clone(),
            created_at: self.created_at,
        }
    }
}

} // verus!
