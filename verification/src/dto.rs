//! What a client sends to create a user, and what the service answers.

use vstd::prelude::*;
use crate::entity::{UserEntity, UserView};
use crate::timestamp::timestamp_text;

verus! {

/// The request body for creating a user.
#[derive(Debug)]
pub struct CreateUserDto {
    /// The chosen username.
    pub username: String,
    /// The email address, unique among registered users.
    pub email: String,
    /// The raw password; only its hash is stored.
    pub password: String,
}

/// The public face of a user: everything but the password hash.
#[derive(Debug)]
pub struct UserResponseDto {
    /// The user's identifier.
    pub id: i32,
    /// The user's username.
    pub username: String,
    /// The user's email address.
    pub email: String,
    /// The creation time, as chrono renders a naive UTC date and time.
    pub created_at: String,
}

/// The mathematical model of a response.
pub struct ResponseView {
    pub id: i32,
    pub username: Seq<char>,
    pub email: Seq<char>,
    pub created_at: Seq<char>,
}

impl View for UserResponseDto {
    type V = ResponseView;

    open spec fn view(&self) -> ResponseView {
        ResponseView {
            id: self.id,
            username: self.username@,
            email: self.email@,
            created_at: self.created_at@,
        }
    }
}

/// The response that shows a stored user: its identifier, username and
/// email unchanged, its creation time rendered as text, and no password hash.
pub open spec fn response_of(u: UserView) -> ResponseView {
    ResponseView {
        id: u.id,
        username: u.username,
        email: u.email,
        created_at: timestamp_text(u.created_at),
    }
}

/// Turns a stored user into the response that shows it.
impl From<UserEntity> for UserResponseDto {
    fn from(entity: UserEntity) -> (response: UserResponseDto)
        ensures
            response@ == response_of(entity@),
    {
        let created_at = entity.created_at.to_text();
        UserResponseDto {
            id: entity.id,
            username: entity.username,
            email: entity.email,
            created_at,
        }
    }
}

/// The trait-level description of the conversion. A `String` is not
/// determined by its text in the model, so the rendered time cannot be named
/// as a value here: `obeys_from_spec` is `false`, and what the conversion
/// returns is stated by the `ensures` of `from` above, over the views.
impl vstd::std_specs::convert::FromSpecImpl<UserEntity> for UserResponseDto {
    open spec fn obeys_from_spec() -> bool {
        false
    }

    open spec fn from_spec(entity: UserEntity) -> UserResponseDto {
        UserResponseDto {
            id: entity.id,
            username: entity.username,
            email: entity.email,
            created_at: choose|s: String| #[trigger] s@ == timestamp_text(entity.created_at@),
        }
    }
}

} // verus!
