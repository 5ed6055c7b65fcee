//! What holds of the repository's operations taken together, proved over the
//! rows of the table.

use vstd::prelude::*;
use crate::clock::Timestamp;
use crate::error::ApiError;
use crate::table::{distinct_ids, has_id, lemma_position, position};
use crate::user::model::{created, deleted, found, fresh_row, merged_row, updated, MessageView, UserView};

verus! {

/// A record that was created is found again under its identifier, as it was
/// made: email and password are the payload's, the identifier is the one it
/// was made with and was not in the table before, and it was never updated.
/// Creation succeeds exactly where the identifier is not taken.
pub proof fn lemma_create_then_find(rows: Seq<UserView>, message: MessageView, id: u128, now: Timestamp)
    requires
        distinct_ids(rows),
    ensures
        ({
            let (after, outcome) = created(rows, fresh_row(message, id, now));
            &&& outcome is Ok <==> !has_id(rows, id)
            &&& outcome is Ok ==> {
                let row = outcome.unwrap();
                &&& found(after, row.id) == Ok::<UserView, ApiError>(row)
                &&& row.id == id
                &&& row.email == message.email
                &&& row.password == message.password
                &&& row.created_at == now
                &&& row.updated_at is None
            }
        }),
{
    if !has_id(rows, id) {
        let row = fresh_row(message, id, now);
        let after = rows.push(row);
        assert(after[rows.len() as int].id == id);
        lemma_keeps_key_on_create(rows, row);
        lemma_position(after, id);
    }
}

/// An update of an existing record at a time after its creation returns the
/// record with that time as its update time, strictly later than its creation
/// time, with identifier and creation time as before and email and password
/// from the payload; and that is the record found afterwards.
pub proof fn lemma_update_sets_timestamp(rows: Seq<UserView>, id: u128, message: MessageView, now: Timestamp)
    requires
        distinct_ids(rows),
        has_id(rows, id),
        now.after(rows[position(rows, id)].created_at),
    ensures
        ({
            let before = rows[position(rows, id)];
            let (after, outcome) = updated(rows, id, message, now);
            &&& outcome is Ok
            &&& outcome.unwrap().updated_at == Some(now)
            &&& now.after(outcome.unwrap().created_at)
            &&& outcome.unwrap().id == id
            &&& outcome.unwrap().created_at == before.created_at
            &&& outcome.unwrap().email == message.email
            &&& outcome.unwrap().password == message.password
            &&& found(after, id) == outcome
        }),
{
    lemma_position(rows, id);
    lemma_update_then_find(rows, id, message, now);
}

/// An update succeeds exactly where the record exists, and the record it
/// returns is then the one found under the identifier.
pub proof fn lemma_update_then_find(rows: Seq<UserView>, id: u128, message: MessageView, now: Timestamp)
    requires
        distinct_ids(rows),
    ensures
        ({
            let (after, outcome) = updated(rows, id, message, now);
            &&& outcome is Ok <==> has_id(rows, id)
            &&& outcome is Ok ==> found(after, id) == outcome
        }),
{
    if has_id(rows, id) {
        lemma_position(rows, id);
        let place = position(rows, id);
        let after = rows.update(place, merged_row(message, rows[place], now));
        assert(after[place].id == id);
        lemma_keeps_key_on_update(rows, id, message, now);
        lemma_position(after, id);
    }
}

/// An update of a record that does not exist is `NotFound` and changes nothing.
pub proof fn lemma_update_absent(rows: Seq<UserView>, id: u128, message: MessageView, now: Timestamp)
    requires
        !has_id(rows, id),
    ensures
        updated(rows, id, message, now) == (rows, Err::<UserView, ApiError>(ApiError::NotFound)),
{
}

/// Deleting an identifier that is not in the table removes nothing and
/// leaves the table as it was.
pub proof fn lemma_delete_absent(rows: Seq<UserView>, id: u128)
    requires
        !has_id(rows, id),
    ensures
        deleted(rows, id) == (rows, 0nat),
{
}

/// After a delete the identifier is gone, so that a second delete removes
/// nothing and a lookup is `NotFound`.
pub proof fn lemma_delete_twice(rows: Seq<UserView>, id: u128)
    requires
        distinct_ids(rows),
    ensures
        ({
            let after = deleted(rows, id).0;
            &&& !has_id(after, id)
            &&& deleted(after, id) == (after, 0nat)
            &&& found(after, id) == Err::<UserView, ApiError>(ApiError::NotFound)
        }),
{
    if has_id(rows, id) {
        lemma_position(rows, id);
        let place = position(rows, id);
        let after = rows.remove(place);
        assert forall|i: int| 0 <= i < after.len() implies #[trigger] after[i].id != id by {
            if i < place {
                assert(after[i] == rows[i]);
            } else {
                assert(after[i] == rows[i + 1]);
            }
        }
    }
}

/// A lookup of an identifier that is not in the table is `NotFound`.
pub proof fn lemma_find_absent(rows: Seq<UserView>, id: u128)
    requires
        !has_id(rows, id),
    ensures
        found(rows, id) == Err::<UserView, ApiError>(ApiError::NotFound),
{
}

/// Deleting a record that exists removes one row and makes the table
/// exactly one row shorter; the rows that stay keep their order.
pub proof fn lemma_delete_one(rows: Seq<UserView>, id: u128)
    requires
        has_id(rows, id),
    ensures
        ({
            let (after, count) = deleted(rows, id);
            &&& count == 1
            &&& after.len() == rows.len() - 1
            &&& after == rows.remove(position(rows, id))
        }),
{
    lemma_position(rows, id);
}

/// A creation that succeeds makes the table exactly one row longer, and one
/// that fails leaves it as it was.
pub proof fn lemma_create_one(rows: Seq<UserView>, row: UserView)
    ensures
        ({
            let (after, outcome) = created(rows, row);
            &&& outcome is Ok ==> after.len() == rows.len() + 1
            &&& outcome is Err ==> after == rows
        }),
{
}

/// A creation keeps the identifiers distinct.
pub proof fn lemma_keeps_key_on_create(rows: Seq<UserView>, row: UserView)
    requires
        distinct_ids(rows),
    ensures
        distinct_ids(created(rows, row).0),
{
    if !has_id(rows, row.id) {
        let after = rows.push(row);
        assert forall|i: int, j: int| 0 <= i < j < after.len() implies #[trigger] after[i].id
            != #[trigger] after[j].id by {
            if j == rows.len() {
                assert(after[i] == rows[i]);
            }
        }
    }
}

/// An update keeps the identifiers distinct and the number of rows.
pub proof fn lemma_keeps_key_on_update(rows: Seq<UserView>, id: u128, message: MessageView, now: Timestamp)
    requires
        distinct_ids(rows),
    ensures
        distinct_ids(updated(rows, id, message, now).0),
        updated(rows, id, message, now).0.len() == rows.len(),
{
    if has_id(rows, id) {
        lemma_position(rows, id);
    }
}

/// A delete keeps the identifiers distinct.
pub proof fn lemma_keeps_key_on_delete(rows: Seq<UserView>, id: u128)
    requires
        distinct_ids(rows),
    ensures
        distinct_ids(deleted(rows, id).0),
{
    if has_id(rows, id) {
        lemma_position(rows, id);
    }
}

} // verus!
