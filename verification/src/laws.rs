//! Properties of the store that span its operations.

use vstd::prelude::*;
use crate::entity::UserView;
use crate::repository::RepoState;
use crate::service::{emails_unique, password_hash_of, register};

verus! {

/// A fresh store is well formed.
pub proof fn lemma_initial_well_formed()
    ensures
        RepoState::initial().well_formed(),
        RepoState::initial().users.len() == 0,
{
}

/// Creating a user in a well-formed store with room leaves it well formed.
pub proof fn lemma_create_well_formed(
    s: RepoState,
    username: Seq<char>,
    email: Seq<char>,
    password_hash: Seq<char>,
    created_at: (i64, u32),
)
    requires
        s.well_formed(),
        s.has_room(),
    ensures
        s.create(username, email, password_hash, created_at).well_formed(),
{
}

/// Deleting any identifier from a well-formed store leaves it well formed.
pub proof fn lemma_delete_well_formed(s: RepoState, id: i32)
    requires
        s.well_formed(),
    ensures
        s.delete(id).well_formed(),
{
}

/// The identifier that a creation assigns is held by no stored user and is
/// greater than every stored identifier, and the counter only grows: an
/// identifier is never handed out twice, not even after a deletion.
pub proof fn lemma_fresh_identifier(
    s: RepoState,
    username: Seq<char>,
    email: Seq<char>,
    password_hash: Seq<char>,
    created_at: (i64, u32),
)
    requires
        s.well_formed(),
    ensures
        s.lookup(s.next_id as i32) is None,
        forall|k: i32| #[trigger] s.users.contains_key(k) ==> k < s.next_id,
        s.create(username, email, password_hash, created_at).next_id == s.next_id + 1,
        forall|id: i32| #[trigger] s.delete(id).next_id == s.next_id,
{
}

/// Reading back a created user gives the record that was written, under the
/// identifier the store assigned, and the user count grows by one.
pub proof fn lemma_create_then_lookup(
    s: RepoState,
    username: Seq<char>,
    email: Seq<char>,
    password_hash: Seq<char>,
    created_at: (i64, u32),
)
    requires
        s.well_formed(),
        s.has_room(),
    ensures
        s.create(username, email, password_hash, created_at).lookup(s.next_id as i32) == Some(
            s.new_record(username, email, password_hash, created_at),
        ),
        s.new_record(username, email, password_hash, created_at).id == s.next_id,
        s.create(username, email, password_hash, created_at).users.len() == s.users.len() + 1,
{
}

/// Creating a user leaves every other stored user as it was.
pub proof fn lemma_create_keeps_others(
    s: RepoState,
    username: Seq<char>,
    email: Seq<char>,
    password_hash: Seq<char>,
    created_at: (i64, u32),
    id: i32,
)
    requires
        s.well_formed(),
        id != s.next_id,
    ensures
        s.create(username, email, password_hash, created_at).lookup(id) == s.lookup(id),
{
}

/// After a deletion the identifier is gone, every other user is as it was,
/// and the user count drops by one where the user existed.
pub proof fn lemma_delete_then_lookup(s: RepoState, id: i32, other: i32)
    requires
        s.well_formed(),
        other != id,
    ensures
        s.delete(id).lookup(id) is None,
        s.delete(id).lookup(other) == s.lookup(other),
        s.lookup(id) is Some ==> s.delete(id).users.len() + 1 == s.users.len(),
{
}

/// Deleting an identifier that no user holds changes nothing.
pub proof fn lemma_delete_absent(s: RepoState, id: i32)
    requires
        s.lookup(id) is None,
    ensures
        s.delete(id) == s,
{
    assert(s.users.remove(id) =~= s.users);
}

/// Deleting the user just created gives back the users held before; only the
/// identifier counter stays advanced.
pub proof fn lemma_create_then_delete(
    s: RepoState,
    username: Seq<char>,
    email: Seq<char>,
    password_hash: Seq<char>,
    created_at: (i64, u32),
)
    requires
        s.well_formed(),
    ensures
        s.create(username, email, password_hash, created_at).delete(s.next_id as i32).users
            == s.users,
        s.create(username, email, password_hash, created_at).delete(s.next_id as i32).next_id
            == s.next_id + 1,
{
    let t = s.create(username, email, password_hash, created_at);
    assert(t.users.remove(s.next_id as i32) =~= s.users);
}

/// A created user's email address is registered afterwards, so a second
/// registration with it is refused.
pub proof fn lemma_created_email_registered(
    s: RepoState,
    username: Seq<char>,
    email: Seq<char>,
    password_hash: Seq<char>,
    created_at: (i64, u32),
)
    requires
        s.well_formed(),
    ensures
        s.create(username, email, password_hash, created_at).has_email(email),
{
    let t = s.create(username, email, password_hash, created_at);
    assert(t.users.contains_key(s.next_id as i32));
}

/// Deletion keeps email addresses distinct.
pub proof fn lemma_delete_keeps_emails_unique(s: RepoState, id: i32)
    requires
        emails_unique(s),
    ensures
        emails_unique(s.delete(id)),
{
}

/// Registration keeps email addresses unique: creating a user whose address
/// no stored user has, in a store whose addresses are distinct, leaves them
/// distinct.
pub proof fn lemma_registration_keeps_emails_unique(
    s: RepoState,
    username: Seq<char>,
    email: Seq<char>,
    password_hash: Seq<char>,
    created_at: (i64, u32),
)
    requires
        s.well_formed(),
        emails_unique(s),
        !s.has_email(email),
    ensures
        emails_unique(s.create(username, email, password_hash, created_at)),
{
    let t = s.create(username, email, password_hash, created_at);
    let n = s.next_id as i32;
    assert forall|a: i32, b: i32|
        #![trigger t.users.contains_key(a), t.users.contains_key(b)]
        t.users.contains_key(a) && t.users.contains_key(b) && a != b implies t.users[a].email
        != t.users[b].email by {
        if a == n {
            assert(s.users.contains_key(b));
        } else if b == n {
            assert(s.users.contains_key(a));
        } else {
            assert(s.users.contains_key(a) && s.users.contains_key(b));
        }
    }
}

/// A listing of all users agrees with reading each of them by identifier,
/// and holds as many entries as there are stored users.
pub proof fn lemma_listing_agrees_with_lookup(s: RepoState, list: Seq<UserView>)
    requires
        s.is_listing(list),
    ensures
        forall|i: int| 0 <= i < list.len() ==> s.lookup(#[trigger] list[i].id) == Some(list[i]),
        forall|id: i32| #[trigger] s.lookup(id) is Some ==> exists|i: int|
            0 <= i < list.len() && #[trigger] list[i] == s.lookup(id).unwrap(),
        list.len() == s.users.len(),
{
    assert forall|id: i32| #[trigger] s.lookup(id) is Some implies exists|i: int|
        0 <= i < list.len() && #[trigger] list[i] == s.lookup(id).unwrap() by {
        assert(s.users.contains_key(id));
    }
}

/// A call that changes the store: what a creation writes, or the identifier
/// a deletion removes. Reads change nothing, so a history of calls acts on the
/// store as the sequence of its creations and deletions.
pub enum StoreOp {
    Create {
        username: Seq<char>,
        email: Seq<char>,
        password_hash: Seq<char>,
        created_at: (i64, u32),
    },
    Delete { id: i32 },
}

/// The state after one call.
pub open spec fn apply(s: RepoState, op: StoreOp) -> RepoState {
    match op {
        StoreOp::Create { username, email, password_hash, created_at } => s.create(
            username,
            email,
            password_hash,
            created_at,
        ),
        StoreOp::Delete { id } => s.delete(id),
    }
}

/// The state after a history of calls, in order.
pub open spec fn run(s: RepoState, ops: Seq<StoreOp>) -> RepoState
    decreases ops.len(),
{
    if ops.len() == 0 {
        s
    } else {
        run(apply(s, ops[0]), ops.drop_first())
    }
}

/// Whether every creation in the history finds room, as the creation
/// functions require.
pub open spec fn runnable(s: RepoState, ops: Seq<StoreOp>) -> bool
    decreases ops.len(),
{
    ops.len() == 0 || {
        &&& (ops[0] is Create ==> s.has_room())
        &&& runnable(apply(s, ops[0]), ops.drop_first())
    }
}

/// Whether the history deletes the identifier `id`.
pub open spec fn deletes(ops: Seq<StoreOp>, id: i32) -> bool {
    exists|i: int| 0 <= i < ops.len() && #[trigger] ops[i] == (StoreOp::Delete { id })
}

/// After any history of creations and deletions, the store is well formed,
/// the identifier counter has not gone down, and every stored identifier
/// either was stored before or was handed out during the history, at or
/// above the counter it started from.
pub proof fn lemma_run_fresh(s: RepoState, ops: Seq<StoreOp>)
    requires
        s.well_formed(),
        runnable(s, ops),
    ensures
        run(s, ops).well_formed(),
        run(s, ops).next_id >= s.next_id,
        forall|k: i32| #[trigger]
            run(s, ops).users.contains_key(k) ==> s.users.contains_key(k) || k >= s.next_id,
    decreases ops.len(),
{
    if ops.len() > 0 {
        let t = apply(s, ops[0]);
        lemma_run_fresh(t, ops.drop_first());
    }
}

/// Identifiers strictly increase over any history: a creation made after an
/// earlier creation and any calls in between, deletions of its user included,
/// receives a greater identifier. So no identifier is issued twice.
pub proof fn lemma_ids_increase(
    s: RepoState,
    username: Seq<char>,
    email: Seq<char>,
    password_hash: Seq<char>,
    created_at: (i64, u32),
    ops: Seq<StoreOp>,
)
    requires
        s.well_formed(),
        s.has_room(),
        runnable(s.create(username, email, password_hash, created_at), ops),
    ensures
        run(s.create(username, email, password_hash, created_at), ops).next_id > s.next_id,
{
    lemma_run_fresh(s.create(username, email, password_hash, created_at), ops);
}

/// A stored user reads back unchanged after any history that does not delete
/// it: in particular, a created user reads back by its identifier until it is
/// deleted.
pub proof fn lemma_run_keeps_undeleted(s: RepoState, ops: Seq<StoreOp>, id: i32)
    requires
        s.well_formed(),
        runnable(s, ops),
        s.users.contains_key(id),
        !deletes(ops, id),
    ensures
        run(s, ops).lookup(id) == s.lookup(id),
    decreases ops.len(),
{
    if ops.len() > 0 {
        let t = apply(s, ops[0]);
        assert(ops[0] != (StoreOp::Delete { id }));
        assert(!deletes(ops.drop_first(), id)) by {
            if deletes(ops.drop_first(), id) {
                let i = choose|i: int|
                    0 <= i < ops.drop_first().len() && #[trigger] ops.drop_first()[i] == (
                    StoreOp::Delete { id });
                assert(ops[i + 1] == (StoreOp::Delete { id }));
            }
        }
        assert(t.users.contains_key(id));
        lemma_run_keeps_undeleted(t, ops.drop_first(), id);
    }
}

/// A call made through the service that changes the store: a registration
/// request that the clock answered with `created_at`, or a deletion.
/// A request the clock could not answer changes nothing and is left out.
pub enum ServiceOp {
    Register {
        username: Seq<char>,
        email: Seq<char>,
        password: Seq<char>,
        created_at: (i64, u32),
    },
    Remove { id: i32 },
}

/// The state after one call through the service.
pub open spec fn apply_service(s: RepoState, op: ServiceOp) -> RepoState {
    match op {
        ServiceOp::Register { username, email, password, created_at } => register(
            s,
            username,
            email,
            password,
            created_at,
        ),
        ServiceOp::Remove { id } => s.delete(id),
    }
}

/// The state after a history of calls through the service, in order.
pub open spec fn run_service(s: RepoState, ops: Seq<ServiceOp>) -> RepoState
    decreases ops.len(),
{
    if ops.len() == 0 {
        s
    } else {
        run_service(apply_service(s, ops[0]), ops.drop_first())
    }
}

/// Whether every registration in the history meets what registration
/// requires: a taken email address, or room for another user.
pub open spec fn service_runnable(s: RepoState, ops: Seq<ServiceOp>) -> bool
    decreases ops.len(),
{
    ops.len() == 0 || {
        &&& (ops[0] matches ServiceOp::Register { email, .. } ==> s.has_email(email)
            || s.has_room())
        &&& service_runnable(apply_service(s, ops[0]), ops.drop_first())
    }
}

/// Unique email addresses are an invariant of the service: if no two stored
/// users share one, none do after any history of registrations and
/// deletions, whatever each registration answered.
pub proof fn lemma_service_keeps_emails_unique(s: RepoState, ops: Seq<ServiceOp>)
    requires
        s.well_formed(),
        emails_unique(s),
        service_runnable(s, ops),
    ensures
        run_service(s, ops).well_formed(),
        emails_unique(run_service(s, ops)),
    decreases ops.len(),
{
    if ops.len() > 0 {
        let t = apply_service(s, ops[0]);
        match ops[0] {
            ServiceOp::Register { username, email, password, created_at } => {
                if !s.has_email(email) {
                    lemma_registration_keeps_emails_unique(
                        s,
                        username,
                        email,
                        password_hash_of(password),
                        created_at,
                    );
                }
            },
            ServiceOp::Remove { id } => {
                lemma_delete_keeps_emails_unique(s, id);
            },
        }
        lemma_service_keeps_emails_unique(t, ops.drop_first());
    }
}

/// A user registered through the service reads back by its identifier,
/// unchanged, after any later history of calls through the service that does
/// not delete it.
pub proof fn lemma_registered_reads_back(
    s: RepoState,
    username: Seq<char>,
    email: Seq<char>,
    password: Seq<char>,
    created_at: (i64, u32),
    ops: Seq<ServiceOp>,
)
    requires
        s.well_formed(),
        !s.has_email(email),
        s.has_room(),
        service_runnable(register(s, username, email, password, created_at), ops),
        forall|i: int| 0 <= i < ops.len() ==> #[trigger] ops[i] != (ServiceOp::Remove {
            id: s.next_id as i32,
        }),
    ensures
        run_service(register(s, username, email, password, created_at), ops).lookup(
            s.next_id as i32,
        ) == Some(s.new_record(username, email, password_hash_of(password), created_at)),
{
    lemma_service_run_keeps_undeleted(
        register(s, username, email, password, created_at),
        ops,
        s.next_id as i32,
    );
}

/// A stored user reads back unchanged after any history of calls through the
/// service that does not delete it.
pub proof fn lemma_service_run_keeps_undeleted(s: RepoState, ops: Seq<ServiceOp>, id: i32)
    requires
        s.well_formed(),
        service_runnable(s, ops),
        s.users.contains_key(id),
        forall|i: int| 0 <= i < ops.len() ==> #[trigger] ops[i] != (ServiceOp::Remove { id }),
    ensures
        run_service(s, ops).lookup(id) == s.lookup(id),
    decreases ops.len(),
{
    if ops.len() > 0 {
        let t = apply_service(s, ops[0]);
        assert(ops[0] != (ServiceOp::Remove { id }));
        assert forall|i: int| 0 <= i < ops.drop_first().len() implies #[trigger] ops.drop_first()[i]
            != (ServiceOp::Remove { id }) by {
            assert(ops[i + 1] != (ServiceOp::Remove { id }));
        }
        assert(t.users.contains_key(id));
        assert(t.well_formed());
        lemma_service_run_keeps_undeleted(t, ops.drop_first(), id);
    }
}

/// Two creations in a row both store their users: the first under the
/// current counter, the second under the next one, each with the time the
/// clock gave it, and the store holds two more users. A second creation is
/// never turned away while there is room.
pub proof fn lemma_consecutive_creates(
    s: RepoState,
    username1: Seq<char>,
    email1: Seq<char>,
    hash1: Seq<char>,
    time1: (i64, u32),
    username2: Seq<char>,
    email2: Seq<char>,
    hash2: Seq<char>,
    time2: (i64, u32),
)
    requires
        s.well_formed(),
        s.next_id + 1 < i32::MAX,
    ensures
        s.create(username1, email1, hash1, time1).has_room(),
        ({
            let s2 = s.create(username1, email1, hash1, time1).create(username2, email2, hash2, time2);
            &&& s2.lookup(s.next_id as i32) == Some(
                UserView {
                    id: s.next_id as i32,
                    username: username1,
                    email: email1,
                    password_hash: hash1,
                    created_at: time1,
                },
            )
            &&& s2.lookup((s.next_id + 1) as i32) == Some(
                UserView {
                    id: (s.next_id + 1) as i32,
                    username: username2,
                    email: email2,
                    password_hash: hash2,
                    created_at: time2,
                },
            )
            &&& s2.users.len() == s.users.len() + 2
            &&& s2.next_id == s.next_id + 2
        }),
{
    let s1 = s.create(username1, email1, hash1, time1);
    lemma_create_well_formed(s, username1, email1, hash1, time1);
    lemma_create_then_lookup(s1, username2, email2, hash2, time2);
    lemma_create_keeps_others(s1, username2, email2, hash2, time2, s.next_id as i32);
}

/// Two registrations in a row with different email addresses that are both
/// free both succeed: the first user is stored under the current counter and
/// the second under the next one, each with `hashed_` and its password and
/// the time the clock gave it, and the second address is still free when the
/// second request arrives, so it meets registration's precondition and is
/// not refused.
pub proof fn lemma_consecutive_registrations(
    s: RepoState,
    username1: Seq<char>,
    email1: Seq<char>,
    password1: Seq<char>,
    time1: (i64, u32),
    username2: Seq<char>,
    email2: Seq<char>,
    password2: Seq<char>,
    time2: (i64, u32),
)
    requires
        s.well_formed(),
        s.next_id + 1 < i32::MAX,
        !s.has_email(email1),
        !s.has_email(email2),
        email1 != email2,
    ensures
        ({
            let s1 = register(s, username1, email1, password1, time1);
            let s2 = register(s1, username2, email2, password2, time2);
            &&& !s1.has_email(email2)
            &&& s1.has_room()
            &&& s2.lookup(s.next_id as i32) == Some(
                UserView {
                    id: s.next_id as i32,
                    username: username1,
                    email: email1,
                    password_hash: "hashed_"@ + password1,
                    created_at: time1,
                },
            )
            &&& s2.lookup((s.next_id + 1) as i32) == Some(
                UserView {
                    id: (s.next_id + 1) as i32,
                    username: username2,
                    email: email2,
                    password_hash: "hashed_"@ + password2,
                    created_at: time2,
                },
            )
            &&& s2.users.len() == s.users.len() + 2
            &&& s2.has_email(email1) && s2.has_email(email2)
        }),
{
    let s1 = register(s, username1, email1, password1, time1);
    assert(!s1.has_email(email2)) by {
        if s1.has_email(email2) {
            let k = choose|k: i32| #[trigger] s1.users.contains_key(k) && s1.users[k].email == email2;
            if k != s.next_id as i32 {
                assert(s.users.contains_key(k));
            }
        }
    }
    lemma_consecutive_creates(
        s,
        username1,
        email1,
        password_hash_of(password1),
        time1,
        username2,
        email2,
        password_hash_of(password2),
        time2,
    );
    let s2 = register(s1, username2, email2, password2, time2);
    assert(s2.users.contains_key(s.next_id as i32));
    assert(s2.users.contains_key((s.next_id + 1) as i32));
}

/// A registration that goes through stores the time the clock gave as the
/// user's creation time, and any two registrations that go through at
/// different times store different creation times.
pub proof fn lemma_registration_records_clock_time(
    s: RepoState,
    username: Seq<char>,
    email: Seq<char>,
    password: Seq<char>,
    time1: (i64, u32),
    time2: (i64, u32),
)
    requires
        s.well_formed(),
        !s.has_email(email),
        time1 != time2,
    ensures
        register(s, username, email, password, time1).users[s.next_id as i32].created_at == time1,
        register(s, username, email, password, time1).users[s.next_id as i32] != register(
            s,
            username,
            email,
            password,
            time2,
        ).users[s.next_id as i32],
{
}

} // verus!
