//! The user record, the payload it is made and changed from, and how a record
//! comes to be and is merged with a payload.

use vstd::prelude::*;
use crate::clock::{now_utc, Timestamp};
use crate::error::{adapt, ApiError};
use crate::ident::{fresh_id, is_random_id};
use crate::table::{has_id, position, views_of, UserTable};
use crate::user::laws::{
    lemma_create_then_find,
    lemma_delete_one,
    lemma_delete_twice,
    lemma_update_then_find,
};

verus! {

/// What a caller supplies to create or change a record: no identifier, no
/// timestamps. Neither field is validated.
#[derive(Debug, PartialEq, Eq)]
pub struct UserMessage {
    pub email: String,
    pub password: String,
}

/// The mathematical value of a `UserMessage`.
pub struct MessageView {
    pub email: Seq<char>,
    pub password: Seq<char>,
}

impl View for UserMessage {
    type V = MessageView;

    open spec fn view(&self) -> MessageView {
        MessageView { email: self.email@, password: self.password@ }
    }
}

/// One row of the user table.
#[derive(Debug, PartialEq, Eq)]
pub struct User {
    /// Primary key: drawn when the record is made, never changed.
    pub id: u128,
    pub email: String,
    /// Stored as given.
    pub password: String,
    /// Set when the record is made, never changed.
    pub created_at: Timestamp,
    /// `None` until the first update, then the time of the latest one.
    pub updated_at: Option<Timestamp>,
}

/// The mathematical value of a `User`: the row as the table holds it.
pub struct UserView {
    pub id: u128,
    pub email: Seq<char>,
    pub password: Seq<char>,
    pub created_at: Timestamp,
    pub updated_at: Option<Timestamp>,
}

impl View for User {
    type V = UserView;

    open spec fn view(&self) -> UserView {
        UserView {
            id: self.id,
            email: self.email@,
            password: self.password@,
            created_at: self.created_at,
            updated_at: self.updated_at,
        }
    }
}

impl Clone for User {
    fn clone(&self) -> (copy: User)
        ensures
            copy == *self,
    {
        User {
            id: self.id,
            email: self.email.clone(),
            password: self.password.clone(),
            created_at: self.created_at,
            updated_at: self.updated_at,
        }
    }
}

/// The row a payload gives rise to, under identifier `id` at time `now`:
/// never updated.
pub open spec fn fresh_row(message: MessageView, id: u128, now: Timestamp) -> UserView {
    UserView {
        id,
        email: message.email,
        password: message.password,
        created_at: now,
        updated_at: None,
    }
}

/// The row `row` after an update with `message` at time `now`: email and
/// password come from the payload, the update time is `now`, identity and
/// creation time stay.
pub open spec fn merged_row(message: MessageView, row: UserView, now: Timestamp) -> UserView {
    UserView {
        id: row.id,
        email: message.email,
        password: message.password,
        created_at: row.created_at,
        updated_at: Some(now),
    }
}

impl From<UserMessage> for User {
    /// The record made from `user` now: a freshly drawn identifier, the wall
    /// clock's time as creation time, never updated. Identifier and creation
    /// time are whatever was drawn and read; all else is fixed by the payload.
    fn from(user: UserMessage) -> (made: User)
        ensures
            made@ == fresh_row(user@, made@.id, made@.created_at),
            is_random_id(made@.id),
            made@.created_at.nanos < 2_000_000_000,
    {
        let id: u128 = fresh_id();
        User::new(user, id, now_utc())
    }
}

/// The conversion draws an identifier and reads the clock, so it is no
/// function of the payload: what it returns is stated on `from` itself.
impl vstd::std_specs::convert::FromSpecImpl<UserMessage> for User {
    open spec fn obeys_from_spec() -> bool {
        false
    }

    open spec fn from_spec(user: UserMessage) -> User {
        arbitrary()
    }
}

/// What a lookup of `id` in `rows` returns: the row with that identifier, or
/// `NotFound`.
pub open spec fn found(rows: Seq<UserView>, id: u128) -> Result<UserView, ApiError> {
    if has_id(rows, id) {
        Ok(rows[position(rows, id)])
    } else {
        Err(ApiError::NotFound)
    }
}

/// The table after `row` was handed in for creation, and what the caller
/// gets: the row is appended and returned, unless its identifier is taken,
/// which is a `StorageError` and leaves the table as it was.
pub open spec fn created(rows: Seq<UserView>, row: UserView) -> (
    Seq<UserView>,
    Result<UserView, ApiError>,
) {
    if has_id(rows, row.id) {
        (rows, Err(ApiError::StorageError))
    } else {
        (rows.push(row), Ok(row))
    }
}

/// The table after an update of `id` with `message` at time `now`, and what
/// the caller gets: the row is merged in place and returned, or there is no
/// such row, which is `NotFound` and leaves the table as it was.
pub open spec fn updated(rows: Seq<UserView>, id: u128, message: MessageView, now: Timestamp) -> (
    Seq<UserView>,
    Result<UserView, ApiError>,
) {
    if has_id(rows, id) {
        let place = position(rows, id);
        let row = merged_row(message, rows[place], now);
        (rows.update(place, row), Ok(row))
    } else {
        (rows, Err(ApiError::NotFound))
    }
}

/// The table after `id` was deleted, and the number of rows that left it.
pub open spec fn deleted(rows: Seq<UserView>, id: u128) -> (Seq<UserView>, nat) {
    if has_id(rows, id) {
        (rows.remove(position(rows, id)), 1)
    } else {
        (rows, 0)
    }
}

/// The mathematical value of what an operation returns for one record.
pub open spec fn outcome_view(outcome: Result<User, ApiError>) -> Result<UserView, ApiError> {
    match outcome {
        Ok(user) => Ok(user@),
        Err(kind) => Err(kind),
    }
}

/// Merges `user_message` into `user` as an update made at time `now`.
pub fn update_at(user_message: UserMessage, user: User, now: Timestamp) -> (merged: User)
    ensures
        merged@ == merged_row(user_message@, user@, now),
{
    let mut user = user;
    user.email = user_message.email;
    user.password = user_message.password;
    user.updated_at = Some(now);
    user
}

/// Merges `user_message` into `user` as an update made now, by the wall clock.
/// The update time is whatever the clock read; all else is fixed by the
/// arguments.
pub fn update(user_message: UserMessage, user: User) -> (merged: User)
    ensures
        merged@.updated_at is Some,
        merged@ == merged_row(user_message@, user@, merged@.updated_at.unwrap()),
        merged@.updated_at.unwrap().nanos < 2_000_000_000,
{
    update_at(user_message, user, now_utc())
}

impl User {
    /// The record made from `message` under identifier `id` at time `now`.
    pub fn new(message: UserMessage, id: u128, now: Timestamp) -> (user: User)
        ensures
            user@ == fresh_row(message@, id, now),
    {
        User { id, email: message.email, password: message.password, created_at: now, updated_at: None }
    }

    /// Every record of the table, in the table's order.
    pub fn find_all(store: &UserTable) -> (result: Result<Vec<User>, ApiError>)
        ensures
            result is Ok,
            views_of(result.unwrap()@) == store@,
            result.unwrap()@.len() == store@.len(),
    {
        Ok(store.load())
    }

    /// The record with identifier `id`, or `NotFound`.
    pub fn find(store: &UserTable, id: u128) -> (result: Result<User, ApiError>)
        requires
            store.wf(),
        ensures
            outcome_view(result) == found(store@, id),
    {
        adapt(store.select(id))
    }

    /// Stores the record made from `user` under identifier `id` at time `now`
    /// and returns it as the table holds it. An identifier that is taken is a
    /// `StorageError`.
    pub fn create_with(store: &mut UserTable, user: UserMessage, id: u128, now: Timestamp) -> (result:
        Result<User, ApiError>)
        requires
            old(store).wf(),
        ensures
            final(store).wf(),
            (final(store)@, outcome_view(result)) == created(old(store)@, fresh_row(user@, id, now)),
            result is Ok <==> !has_id(old(store)@, id),
            result is Ok ==> found(final(store)@, id) == outcome_view(result),
    {
        proof {
            lemma_create_then_find(store@, user@, id, now);
        }
        adapt(store.insert(User::new(user, id, now)))
    }

    /// Stores the record made from `user` now, under a freshly drawn
    /// identifier, and returns it as the table holds it. Which identifier and
    /// which creation time is for the draw and the clock to say. The one
    /// failure is a `StorageError`, where the identifier drawn is taken: it can
    /// only happen while the table holds a row with a random identifier.
    pub fn create(store: &mut UserTable, user: UserMessage) -> (result: Result<User, ApiError>)
        requires
            old(store).wf(),
        ensures
            final(store).wf(),
            match result {
                Ok(made) => {
                    &&& is_random_id(made@.id)
                    &&& made@.created_at.nanos < 2_000_000_000
                    &&& made@ == fresh_row(user@, made@.id, made@.created_at)
                    &&& !has_id(old(store)@, made@.id)
                    &&& final(store)@ == old(store)@.push(made@)
                    &&& found(final(store)@, made@.id) == Ok::<UserView, ApiError>(made@)
                },
                Err(kind) => {
                    &&& kind == ApiError::StorageError
                    &&& final(store)@ == old(store)@
                    &&& exists|id: u128| is_random_id(id) && has_id(old(store)@, id)
                },
            },
    {
        let id: u128 = fresh_id();
        User::create_with(store, user, id, now_utc())
    }

    /// Updates the record with identifier `id` from `user` at time `now`:
    /// fetches the row, merges the payload into it and writes the whole row
    /// back. A missing row is `NotFound`.
    pub fn update_at(store: &mut UserTable, id: u128, user: UserMessage, now: Timestamp) -> (result:
        Result<User, ApiError>)
        requires
            old(store).wf(),
        ensures
            final(store).wf(),
            (final(store)@, outcome_view(result)) == updated(old(store)@, id, user@, now),
            result is Ok <==> has_id(old(store)@, id),
            result is Ok ==> found(final(store)@, id) == outcome_view(result),
    {
        proof {
            lemma_update_then_find(store@, id, user@, now);
        }
        match adapt(store.select(id)) {
            Ok(existing) => adapt(store.replace(self::update_at(user, existing, now))),
            Err(kind) => Err(kind),
        }
    }

    /// Updates the record with identifier `id` from `user` now, by the wall
    /// clock. The update time is whatever the clock read. A missing row is
    /// `NotFound`, and there is no other failure.
    pub fn update(store: &mut UserTable, id: u128, user: UserMessage) -> (result: Result<User, ApiError>)
        requires
            old(store).wf(),
        ensures
            final(store).wf(),
            match result {
                Ok(merged) => {
                    &&& has_id(old(store)@, id)
                    &&& merged@.updated_at is Some
                    &&& merged@.updated_at.unwrap().nanos < 2_000_000_000
                    &&& (final(store)@, Ok::<UserView, ApiError>(merged@)) == updated(
                        old(store)@,
                        id,
                        user@,
                        merged@.updated_at.unwrap(),
                    )
                    &&& found(final(store)@, id) == Ok::<UserView, ApiError>(merged@)
                },
                Err(kind) => {
                    &&& kind == ApiError::NotFound
                    &&& !has_id(old(store)@, id)
                    &&& final(store)@ == old(store)@
                },
            },
    {
        User::update_at(store, id, user, now_utc())
    }

    /// Deletes the record with identifier `id` and returns how many rows
    /// were removed: 1, or 0 where there was none, which is no error.
    pub fn delete(store: &mut UserTable, id: u128) -> (result: Result<usize, ApiError>)
        requires
            old(store).wf(),
        ensures
            final(store).wf(),
            result is Ok,
            (final(store)@, result.unwrap() as nat) == deleted(old(store)@, id),
            result.unwrap() == (if has_id(old(store)@, id) { 1usize } else { 0usize }),
            final(store)@.len() == old(store)@.len() - result.unwrap(),
            !has_id(final(store)@, id),
    {
        proof {
            lemma_delete_twice(store@, id);
            if has_id(store@, id) {
                lemma_delete_one(store@, id);
            }
        }
        Ok(store.remove(id))
    }
}

} // verus!
