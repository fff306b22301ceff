//! The business rules: unique email addresses, hashed passwords, and the
//! mapping of stored users to responses.

use vstd::prelude::*;
use crate::dto::{CreateUserDto, ResponseView, UserResponseDto, response_of};
use crate::entity::UserView;
use crate::repository::{RepoState, UserRepository, clock_error_message};
use crate::timestamp::{Timestamp, unix_time_text};

verus! {

/// The error text when the email address is already registered.
pub open spec fn email_taken_message() -> Seq<char> {
    "Bu email allaqachon ro'yxatdan o'tgan"@
}

/// The error text when no user has the requested identifier.
pub open spec fn user_not_found_message() -> Seq<char> {
    "Foydalanuvchi topilmadi"@
}

/// The stored form of a password: the password behind the prefix `hashed_`.
pub open spec fn password_hash_of(password: Seq<char>) -> Seq<char> {
    "hashed_"@ + password
}

/// The state after a registration request that the clock answered with
/// `created_at`: unchanged where the email address is taken, otherwise the
/// user stored with the hash of the password.
pub open spec fn register(
    state: RepoState,
    username: Seq<char>,
    email: Seq<char>,
    password: Seq<char>,
    created_at: (i64, u32),
) -> RepoState {
    if state.has_email(email) {
        state
    } else {
        state.create(username, email, password_hash_of(password), created_at)
    }
}

/// Whether no two stored users share an email address.
pub open spec fn emails_unique(state: RepoState) -> bool {
    forall|a: i32, b: i32|
        #![trigger state.users.contains_key(a), state.users.contains_key(b)]
        state.users.contains_key(a) && state.users.contains_key(b) && a != b
            ==> state.users[a].email != state.users[b].email
}

/// Whether `list` holds the response of each stored user exactly once, in
/// some order.
pub open spec fn lists_responses(state: RepoState, list: Seq<ResponseView>) -> bool {
    exists|users: Seq<UserView>|
        state.is_listing(users) && list == users.map_values(|u: UserView| response_of(u))
}

/// The stored form of `password`: `hashed_` followed by the password.
pub fn hash_password(password: &str) -> (hash: String)
    ensures
        hash@ == password_hash_of(password@),
{
    let mut hash = "hashed_".to_owned();
    hash.append(password);
    hash
}

/// The service in front of the store of users.
pub struct UserService {
    repo: UserRepository,
}

impl View for UserService {
    type V = RepoState;

    closed spec fn view(&self) -> RepoState {
        self.repo@
    }
}

impl UserService {
    /// A service over the given store.
    pub fn new(repo: UserRepository) -> (service: UserService)
        ensures
            service@ == repo@,
    {
        UserService { repo }
    }

    /// The identifier that the next created user receives.
    pub fn next_id(&self) -> (id: i32)
        ensures
            id == self@.next_id,
            self@.well_formed(),
    {
        self.repo.next_id()
    }

    /// Whether some stored user has exactly this email address.
    pub fn is_registered(&self, email: &str) -> (taken: bool)
        ensures
            self@.well_formed(),
            taken == self@.has_email(email@),
    {
        self.repo.find_by_email(email).is_some()
    }

    /// Registers a user created at `created_at`: refused where the email
    /// address is taken; otherwise the user is stored with the hash of the
    /// password, and the response that shows it comes back.
    pub fn create_user_at(&mut self, dto: CreateUserDto, created_at: Timestamp) -> (result: Result<
        UserResponseDto,
        String,
    >)
        requires
            old(self)@.has_email(dto.email@) || old(self)@.has_room(),
        ensures
            final(self)@.well_formed(),
            final(self)@ == register(old(self)@, dto.username@, dto.email@, dto.password@, created_at@),
            match result {
                Ok(response) => {
                    &&& !old(self)@.has_email(dto.email@)
                    &&& final(self)@ == old(self)@.create(
                        dto.username@,
                        dto.email@,
                        password_hash_of(dto.password@),
                        created_at@,
                    )
                    &&& response@ == response_of(
                        old(self)@.new_record(
                            dto.username@,
                            dto.email@,
                            password_hash_of(dto.password@),
                            created_at@,
                        ),
                    )
                },
                Err(message) => {
                    &&& old(self)@.has_email(dto.email@)
                    &&& final(self)@ == old(self)@
                    &&& message@ == email_taken_message()
                },
            },
    {
        if self.is_registered(dto.email.as_str()) {
            return Err("Bu email allaqachon ro'yxatdan o'tgan".to_owned());
        }
        let password_hash = hash_password(dto.password.as_str());
        let user = self.repo.create_at(dto.username, dto.email, password_hash, created_at);
        Ok(UserResponseDto::from(user))
    }

    /// Registers a user created now: refused where the email address is
    /// taken; otherwise the user is stored under the next identifier with the
    /// hash of the password and the current time, and the response that shows
    /// it comes back. Where the system clock cannot give a time, the clock
    /// error comes back with the store unchanged.
    pub fn create_user(&mut self, dto: CreateUserDto) -> (result: Result<UserResponseDto, String>)
        requires
            old(self)@.has_email(dto.email@) || old(self)@.has_room(),
        ensures
            final(self)@.well_formed(),
            match result {
                Ok(response) => {
                    let created_at = final(self)@.users[old(self)@.next_id as i32].created_at;
                    &&& unix_time_text(created_at.0, created_at.1) is Some
                    &&& created_at.0 >= 0 && created_at.1 < 1_000_000_000
                    &&& final(self)@ == register(
                        old(self)@,
                        dto.username@,
                        dto.email@,
                        dto.password@,
                        created_at,
                    )
                    &&& !old(self)@.has_email(dto.email@)
                    &&& final(self)@ == old(self)@.create(
                        dto.username@,
                        dto.email@,
                        password_hash_of(dto.password@),
                        created_at,
                    )
                    &&& response@ == response_of(
                        old(self)@.new_record(
                            dto.username@,
                            dto.email@,
                            password_hash_of(dto.password@),
                            created_at,
                        ),
                    )
                },
                Err(message) => {
                    &&& final(self)@ == old(self)@
                    &&& old(self)@.has_email(dto.email@) ==> message@ == email_taken_message()
                    &&& !old(self)@.has_email(dto.email@) ==> message@ == clock_error_message()
                },
            },
    {
        if self.is_registered(dto.email.as_str()) {
            return Err("Bu email allaqachon ro'yxatdan o'tgan".to_owned());
        }
        self.create_user_with_clock(dto, Timestamp::now())
    }

    /// Registration given what the clock answered: refused where the email
    /// address is taken; otherwise, with a time, the user is stored under the
    /// next identifier with the hash of the password at that time and the
    /// response that shows it comes back; only where the email address is free
    /// and the clock gave no time does the clock error come back. Refusals
    /// leave the store unchanged.
    pub fn create_user_with_clock(&mut self, dto: CreateUserDto, now: Option<Timestamp>) -> (result:
        Result<UserResponseDto, String>)
        requires
            old(self)@.has_email(dto.email@) || old(self)@.has_room(),
        ensures
            final(self)@.well_formed(),
            old(self)@.has_email(dto.email@) ==> {
                &&& result matches Err(message) && message@ == email_taken_message()
                &&& final(self)@ == old(self)@
            },
            !old(self)@.has_email(dto.email@) ==> match now {
                Some(t) => {
                    &&& result matches Ok(response) && response@ == response_of(
                        old(self)@.new_record(
                            dto.username@,
                            dto.email@,
                            password_hash_of(dto.password@),
                            t@,
                        ),
                    )
                    &&& final(self)@ == register(
                        old(self)@,
                        dto.username@,
                        dto.email@,
                        dto.password@,
                        t@,
                    )
                },
                None => {
                    &&& result matches Err(message) && message@ == clock_error_message()
                    &&& final(self)@ == old(self)@
                },
            },
    {
        if self.is_registered(dto.email.as_str()) {
            return Err("Bu email allaqachon ro'yxatdan o'tgan".to_owned());
        }
        let password_hash = hash_password(dto.password.as_str());
        match self.repo.create_with_clock(dto.username, dto.email, password_hash, now) {
            Ok(user) => Ok(UserResponseDto::from(user)),
            Err(message) => Err(message),
        }
    }

    /// The response that shows the user with identifier `id`, or the
    /// not-found error.
    pub fn get_user_by_id(&self, id: i32) -> (result: Result<UserResponseDto, String>)
        ensures
            match self@.lookup(id) {
                Some(u) => result matches Ok(response) && response@ == response_of(u),
                None => result matches Err(message) && message@ == user_not_found_message(),
            },
    {
        match self.repo.find_by_id(id) {
            Some(user) => Ok(UserResponseDto::from(user)),
            None => Err("Foydalanuvchi topilmadi".to_owned()),
        }
    }

    /// The responses of all stored users, each once, in the order the store
    /// yields them.
    pub fn get_all_users(&self) -> (result: Result<Vec<UserResponseDto>, String>)
        ensures
            result matches Ok(list) && lists_responses(
                self@,
                list@.map_values(|r: UserResponseDto| r@),
            ),
    {
        let users = self.repo.find_all();
        let ghost listed = users@.map_values(|u: crate::entity::UserEntity| u@);
        let mut responses: Vec<UserResponseDto> = Vec::new();
        let n: usize = users.len();
        for i in 0..n
            invariant
                n == users.len(),
                listed == users@.map_values(|u: crate::entity::UserEntity| u@),
                responses.len() == i,
                forall|j: int| 0 <= j < i ==> #[trigger] responses@[j]@ == response_of(listed[j]),
        {
            responses.push(UserResponseDto::from(users[i].duplicate()));
        }
        proof {
            let list = responses@.map_values(|r: UserResponseDto| r@);
            assert(list =~= listed.map_values(|u: UserView| response_of(u)));
        }
        Ok(responses)
    }

    /// Removes the user with identifier `id` and returns the response that
    /// showed it, or the not-found error with the store unchanged.
    pub fn delete(&mut self, id: i32) -> (result: Result<UserResponseDto, String>)
        ensures
            final(self)@ == old(self)@.delete(id),
            final(self)@.well_formed(),
            match old(self)@.lookup(id) {
                Some(u) => result matches Ok(response) && response@ == response_of(u),
                None => result matches Err(message) && message@ == user_not_found_message(),
            },
    {
        match self.repo.delete(id) {
            Some(user) => Ok(UserResponseDto::from(user)),
            None => Err("Foydalanuvchi topilmadi".to_owned()),
        }
    }
}

} // verus!
