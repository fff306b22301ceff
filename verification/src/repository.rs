//! The in-memory store of users, keyed by sequentially assigned identifiers.

use vstd::prelude::*;
use std::collections::HashMap;
use vstd::std_specs::iter::IteratorSpec;
use vstd::std_specs::hash::spec_values_iter;
use crate::entity::{UserEntity, UserView};
use crate::timestamp::{Timestamp, unix_time_text};

verus! {

broadcast use vstd::std_specs::hash::group_hash_axioms;

/// The mathematical model of the store: the stored users by identifier, and
/// the identifier that the next created user receives.
pub struct RepoState {
    pub users: Map<i32, UserView>,
    pub next_id: int,
}

impl RepoState {
    /// The state of a fresh store: no users, and identifiers starting at 1.
    pub open spec fn initial() -> RepoState {
        RepoState { users: Map::empty(), next_id: 1 }
    }

    /// What every reachable state satisfies: finitely many users, each
    /// stored under its own identifier, and every identifier at least 1 and
    /// below the next one to be assigned, which fits in an `i32`.
    pub open spec fn well_formed(self) -> bool {
        &&& 1 <= self.next_id <= i32::MAX
        &&& self.users.dom().finite()
        &&& forall|k: i32| #[trigger]
            self.users.contains_key(k) ==> 1 <= k < self.next_id && self.users[k].id == k
    }

    /// Whether another user can be created: its identifier, and the one after
    /// it, fit in an `i32`.
    pub open spec fn has_room(self) -> bool {
        self.next_id < i32::MAX
    }

    /// The record that creating a user stores.
    pub open spec fn new_record(
        self,
        username: Seq<char>,
        email: Seq<char>,
        password_hash: Seq<char>,
        created_at: (i64, u32),
    ) -> UserView {
        UserView { id: self.next_id as i32, username, email, password_hash, created_at }
    }

    /// The state after creating a user: the new record stored under the next
    /// identifier, which then advances by one.
    pub open spec fn create(
        self,
        username: Seq<char>,
        email: Seq<char>,
        password_hash: Seq<char>,
        created_at: (i64, u32),
    ) -> RepoState {
        RepoState {
            users: self.users.insert(
                self.next_id as i32,
                self.new_record(username, email, password_hash, created_at),
            ),
            next_id: self.next_id + 1,
        }
    }

    /// The state after deleting the user with identifier `id`, whether or not
    /// it was stored.
    pub open spec fn delete(self, id: i32) -> RepoState {
        RepoState { users: self.users.remove(id), next_id: self.next_id }
    }

    /// The user stored under `id`, if any.
    pub open spec fn lookup(self, id: i32) -> Option<UserView> {
        if self.users.contains_key(id) {
            Some(self.users[id])
        } else {
            None
        }
    }

    /// Whether some stored user has this email address.
    pub open spec fn has_email(self, email: Seq<char>) -> bool {
        exists|k: i32| #[trigger] self.users.contains_key(k) && self.users[k].email == email
    }

    /// Whether `list` holds each stored user exactly once, in some order.
    pub open spec fn is_listing(self, list: Seq<UserView>) -> bool {
        &&& list.len() == self.users.len()
        &&& forall|i: int|
            0 <= i < list.len() ==> self.users.contains_key(#[trigger] list[i].id)
                && self.users[list[i].id] == list[i]
        &&& forall|k: i32| #[trigger]
            self.users.contains_key(k) ==> exists|i: int|
                0 <= i < list.len() && #[trigger] list[i] == self.users[k]
    }
}

/// The error text when the system clock cannot give a creation time.
pub open spec fn clock_error_message() -> Seq<char> {
    "Clock unavailable"@
}

/// The store of users. Identifiers are assigned in order from 1 and never
/// reused.
pub struct UserRepository {
    users: HashMap<i32, UserEntity>,
    next_id: i32,
}

impl View for UserRepository {
    type V = RepoState;

    closed spec fn view(&self) -> RepoState {
        RepoState {
            users: self.users@.map_values(|e: UserEntity| e@),
            next_id: self.next_id as int,
        }
    }
}

impl UserRepository {
    #[verifier::type_invariant]
    closed spec fn inv(self) -> bool {
        &&& 1 <= self.next_id
        &&& forall|k: i32| #[trigger]
            self.users@.contains_key(k) ==> 1 <= k < self.next_id && self.users@[k].id == k
    }

    proof fn lemma_view_well_formed(&self)
        requires
            self.inv(),
        ensures
            self@.well_formed(),
    {
        assert(self.users@.dom().finite());
        assert(self@.users.dom() =~= self.users@.dom());
    }

    /// An empty store whose first user receives identifier 1.
    pub fn new() -> (repo: UserRepository)
        ensures
            repo@ == RepoState::initial(),
            repo@.well_formed(),
    {
        let repo = UserRepository { users: HashMap::new(), next_id: 1 };
        assert(repo@.users =~= Map::empty());
        repo
    }

    /// Stores a new user created at `created_at` under the next identifier,
    /// advances the identifier, and returns the stored record.
    pub fn create_at(
        &mut self,
        username: String,
        email: String,
        password_hash: String,
        created_at: Timestamp,
    ) -> (user: UserEntity)
        requires
            old(self)@.has_room(),
        ensures
            final(self)@ == old(self)@.create(username@, email@, password_hash@, created_at@),
            user@ == old(self)@.new_record(username@, email@, password_hash@, created_at@),
            final(self)@.well_formed(),
    {
        proof {
            use_type_invariant(&*self);
        }
        let ghost before = self@;
        let id: i32 = self.next_id;
        self.next_id = id + 1;
        let user = UserEntity { id, username, email, password_hash, created_at };
        let mut users = HashMap::new();
        std::mem::swap(&mut users, &mut self.users);
        users.insert(id, user.duplicate());
        self.users = users;
        proof {
            use_type_invariant(&*self);
            self.lemma_view_well_formed();
            assert(self@.users =~= before.users.insert(id, user@));
        }
        user
    }

    /// Stores a new user created now under the next identifier, advances the
    /// identifier, and returns the stored record; where the system clock
    /// cannot give a time, the clock error with the store unchanged.
    pub fn create(&mut self, username: String, email: String, password_hash: String) -> (result:
        Result<UserEntity, String>)
        requires
            old(self)@.has_room(),
        ensures
            final(self)@.well_formed(),
            match result {
                Ok(user) => {
                    let t = user@.created_at;
                    &&& t.0 >= 0 && t.1 < 1_000_000_000
                    &&& unix_time_text(t.0, t.1) is Some
                    &&& final(self)@ == old(self)@.create(username@, email@, password_hash@, t)
                    &&& user@ == old(self)@.new_record(username@, email@, password_hash@, t)
                },
                Err(message) => {
                    &&& final(self)@ == old(self)@
                    &&& message@ == clock_error_message()
                },
            },
    {
        self.create_with_clock(username, email, password_hash, Timestamp::now())
    }

    /// Creation given what the clock answered: with a time, the user is
    /// stored under the next identifier at that time and returned; only
    /// without one does the clock error come back, with the store unchanged.
    pub fn create_with_clock(
        &mut self,
        username: String,
        email: String,
        password_hash: String,
        now: Option<Timestamp>,
    ) -> (result: Result<UserEntity, String>)
        requires
            old(self)@.has_room(),
        ensures
            final(self)@.well_formed(),
            match now {
                Some(t) => result matches Ok(user) && user@ == old(self)@.new_record(
                    username@,
                    email@,
                    password_hash@,
                    t@,
                ) && final(self)@ == old(self)@.create(username@, email@, password_hash@, t@),
                None => result matches Err(message) && message@ == clock_error_message()
                    && final(self)@ == old(self)@,
            },
    {
        match now {
            Some(created_at) => Ok(self.create_at(username, email, password_hash, created_at)),
            None => {
                proof {
                    use_type_invariant(&*self);
                    self.lemma_view_well_formed();
                }
                Err("Clock unavailable".to_owned())
            },
        }
    }

    /// The user stored under `id`, if any.
    pub fn find_by_id(&self, id: i32) -> (found: Option<UserEntity>)
        ensures
            match found {
                Some(u) => self@.lookup(id) == Some(u@),
                None => self@.lookup(id) is None,
            },
    {
        match self.users.get(&id) {
            Some(u) => Some(u.duplicate()),
            None => None,
        }
    }

    /// Some stored user with exactly this email address, or `None` where no
    /// stored user has it. Where several share it, which one comes back is
    /// left open.
    pub fn find_by_email(&self, email: &str) -> (found: Option<UserEntity>)
        ensures
            self@.well_formed(),
            match found {
                Some(u) => {
                    &&& self@.users.contains_key(u.id)
                    &&& self@.users[u.id] == u@
                    &&& u@.email == email@
                },
                None => !self@.has_email(email@),
            },
    {
        proof {
            use_type_invariant(self);
        }
        let wanted = email.to_owned();
        let ghost listed = spec_values_iter(&self.users).remaining().unref();
        proof {
            self.lemma_view_well_formed();
        }
        for u in it: self.users.values()
            invariant
                self.inv(),
                wanted@ == email@,
                it.seq().unref() == listed,
                listed.to_set() == self.users@.values(),
                forall|i: int| 0 <= i < it.index() ==> (#[trigger] it.seq()[i]).email@ != email@,
        {
            assert(it.seq().unref().to_set().contains(*u)) by {
                assert(it.seq().unref()[it.index()] == *u);
            }
            if u.email == wanted {
                proof {
                    self.lemma_view_well_formed();
                }
                return Some(u.duplicate());
            }
        }
        proof {
            assert forall|k: i32| #[trigger] self@.users.contains_key(k) implies self@.users[k].email
                != email@ by {
                let e = self.users@[k];
                assert(self.users@.values().contains(e));
                let i = listed.index_of(e);
                assert(listed[i].email@ != email@);
            }
        }
        None
    }

    /// Every stored user exactly once, in the order the map yields them.
    pub fn find_all(&self) -> (all: Vec<UserEntity>)
        ensures
            self@.is_listing(all@.map_values(|u: UserEntity| u@)),
    {
        proof {
            use_type_invariant(self);
        }
        let ghost listed = spec_values_iter(&self.users).remaining().unref();
        let mut all: Vec<UserEntity> = Vec::new();
        for u in it: self.users.values()
            invariant
                self.inv(),
                it.seq().unref() == listed,
                listed.to_set() == self.users@.values(),
                it.seq().len() == self.users@.dom().len(),
                all@.len() == it.index(),
                forall|i: int| 0 <= i < it.index() ==> #[trigger] all@[i] == *it.seq()[i],
        {
            all.push(u.duplicate());
        }
        proof {
            let list = all@.map_values(|u: UserEntity| u@);
            assert(all@ =~= listed);
            assert forall|i: int| 0 <= i < list.len() implies self@.users.contains_key(
                #[trigger] list[i].id,
            ) && self@.users[list[i].id] == list[i] by {
                assert(listed.to_set().contains(all@[i]));
                let k = choose|k: i32|
                    self.users@.contains_key(k) && self.users@[k] == all@[i];
            }
            assert forall|k: i32| #[trigger] self@.users.contains_key(k) implies exists|i: int|
                0 <= i < list.len() && #[trigger] list[i] == self@.users[k] by {
                let e = self.users@[k];
                assert(self.users@.values().contains(e));
                let i = all@.index_of(e);
                assert(list[i] == self@.users[k]);
            }
            assert(self@.users.dom() =~= self.users@.dom());
        }
        all
    }

    /// Removes the user stored under `id` and returns it; `None`, with the
    /// store unchanged, where no user has that identifier.
    pub fn delete(&mut self, id: i32) -> (removed: Option<UserEntity>)
        ensures
            final(self)@ == old(self)@.delete(id),
            final(self)@.well_formed(),
            match removed {
                Some(u) => old(self)@.lookup(id) == Some(u@),
                None => old(self)@.lookup(id) is None,
            },
    {
        proof {
            use_type_invariant(&*self);
        }
        let ghost before = self@;
        let mut users = HashMap::new();
        std::mem::swap(&mut users, &mut self.users);
        let removed = users.remove(&id);
        self.users = users;
        proof {
            use_type_invariant(&*self);
            self.lemma_view_well_formed();
            assert(self@.users =~= before.users.remove(id));
            assert(self@ == before.delete(id));
        }
        removed
    }

    /// The identifier that the next created user receives.
    pub fn next_id(&self) -> (id: i32)
        ensures
            id == self@.next_id,
            self@.well_formed(),
    {
        proof {
            use_type_invariant(self);
            self.lemma_view_well_formed();
        }
        self.next_id
    }
}

} // verus!
