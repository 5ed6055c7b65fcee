//! The user table as a value: its rows in the order they were inserted, no two
//! with the same identifier. Each method is one statement against the table.

use vstd::prelude::*;
use crate::error::StorageFault;
use crate::user::model::{User, UserView};

verus! {

/// Some row of `rows` has identifier `id`.
pub open spec fn has_id(rows: Seq<UserView>, id: u128) -> bool {
    exists|i: int| 0 <= i < rows.len() && #[trigger] rows[i].id == id
}

/// No two rows of `rows` share an identifier.
pub open spec fn distinct_ids(rows: Seq<UserView>) -> bool {
    forall|i: int, j: int|
        0 <= i < j < rows.len() ==> #[trigger] rows[i].id != #[trigger] rows[j].id
}

/// Where the row with identifier `id` stands in `rows`. Meaningful where
/// `has_id(rows, id)`; the place is then the only one where the identifiers
/// are distinct.
pub open spec fn position(rows: Seq<UserView>, id: u128) -> int {
    choose|i: int| 0 <= i < rows.len() && #[trigger] rows[i].id == id
}

/// The rows that a sequence of records stands for.
pub open spec fn views_of(users: Seq<User>) -> Seq<UserView> {
    Seq::new(users.len(), |i: int| users[i]@)
}

/// `position` is a place of `id`, and under distinct identifiers the only one.
pub proof fn lemma_position(rows: Seq<UserView>, id: u128)
    requires
        has_id(rows, id),
    ensures
        0 <= position(rows, id) < rows.len(),
        rows[position(rows, id)].id == id,
        distinct_ids(rows) ==> forall|i: int|
            0 <= i < rows.len() && #[trigger] rows[i].id == id ==> i == position(rows, id),
{
}

/// The user table.
pub struct UserTable {
    rows: Vec<User>,
}

impl View for UserTable {
    type V = Seq<UserView>;

    closed spec fn view(&self) -> Seq<UserView> {
        views_of(self.rows@)
    }
}

impl UserTable {
    /// The table's invariant: the identifier is a key.
    pub open spec fn wf(&self) -> bool {
        distinct_ids(self@)
    }

    /// The empty table.
    pub fn new() -> (table: UserTable)
        ensures
            table@ == Seq::<UserView>::empty(),
            table.wf(),
    {
        let table = UserTable { rows: Vec::new() };
        assert(table@ =~= Seq::<UserView>::empty());
        table
    }

    /// The number of rows.
    pub fn len(&self) -> (count: usize)
        ensures
            count == self@.len(),
    {
        self.rows.len()
    }

    /// The place of the row with identifier `id`, if there is one.
    fn index_of(&self, id: u128) -> (place: Option<usize>)
        requires
            self.wf(),
        ensures
            match place {
                Some(i) => has_id(self@, id) && i == position(self@, id),
                None => !has_id(self@, id),
            },
    {
        let mut i: usize = 0;
        while i < self.rows.len()
            invariant
                self.wf(),
                i <= self.rows.len(),
                forall|j: int| 0 <= j < i ==> self@[j].id != id,
            decreases self.rows.len() - i,
        {
            if self.rows[i].id == id {
                proof {
                    let rows = self@;
                    assert(rows[i as int] == self.rows@[i as int]@);
                    assert(rows[i as int].id == id);
                    assert(has_id(rows, id));
                    lemma_position(rows, id);
                }
                return Some(i);
            }
            i += 1;
        }
        None
    }

    /// Every row, in the table's order.
    pub fn load(&self) -> (users: Vec<User>)
        ensures
            views_of(users@) == self@,
    {
        let mut users: Vec<User> = Vec::new();
        let mut i: usize = 0;
        while i < self.rows.len()
            invariant
                i <= self.rows.len(),
                users@.len() == i,
                forall|j: int| 0 <= j < i ==> users@[j] == self.rows@[j],
            decreases self.rows.len() - i,
        {
            users.push(self.rows[i].clone());
            i += 1;
        }
        assert(views_of(users@) =~= self@);
        users
    }

    /// The row with identifier `id`; `NoRows` where there is none.
    pub fn select(&self, id: u128) -> (outcome: Result<User, StorageFault>)
        requires
            self.wf(),
        ensures
            match outcome {
                Ok(user) => has_id(self@, id) && user@ == self@[position(self@, id)],
                Err(fault) => fault == StorageFault::NoRows && !has_id(self@, id),
            },
    {
        match self.index_of(id) {
            Some(i) => Ok(self.rows[i].clone()),
            None => Err(StorageFault::NoRows),
        }
    }

    /// Appends `user` as a new row and hands the stored row back. The
    /// identifier is the primary key: where it is taken the table refuses the
    /// row with `Constraint` and stays as it was.
    pub fn insert(&mut self, user: User) -> (outcome: Result<User, StorageFault>)
        requires
            old(self).wf(),
        ensures
            final(self).wf(),
            match outcome {
                Ok(stored) => !has_id(old(self)@, user.id) && stored@ == user@
                    && final(self)@ == old(self)@.push(user@),
                Err(fault) => fault == StorageFault::Constraint && has_id(old(self)@, user.id)
                    && final(self)@ == old(self)@,
            },
    {
        match self.index_of(user.id) {
            Some(_) => Err(StorageFault::Constraint),
            None => {
                let stored = user.clone();
                self.rows.push(user);
                proof {
                    assert(final(self)@ =~= old(self)@.push(user@));
                }
                Ok(stored)
            },
        }
    }

    /// Writes `user` over the row that has its identifier and hands the
    /// stored row back; `NoRows` where there is none, and the table stays as
    /// it was.
    pub fn replace(&mut self, user: User) -> (outcome: Result<User, StorageFault>)
        requires
            old(self).wf(),
        ensures
            final(self).wf(),
            match outcome {
                Ok(stored) => has_id(old(self)@, user.id) && stored@ == user@
                    && final(self)@ == old(self)@.update(position(old(self)@, user.id), user@),
                Err(fault) => fault == StorageFault::NoRows && !has_id(old(self)@, user.id)
                    && final(self)@ == old(self)@,
            },
    {
        match self.index_of(user.id) {
            Some(i) => {
                let stored = user.clone();
                self.rows.set(i, user);
                proof {
                    assert(final(self)@ =~= old(self)@.update(i as int, user@));
                }
                Ok(stored)
            },
            None => Err(StorageFault::NoRows),
        }
    }

    /// Deletes the row with identifier `id` and returns how many rows left
    /// the table: 1, or 0 where there was none.
    pub fn remove(&mut self, id: u128) -> (count: usize)
        requires
            old(self).wf(),
        ensures
            final(self).wf(),
            has_id(old(self)@, id) ==> count == 1
                && final(self)@ == old(self)@.remove(position(old(self)@, id)),
            !has_id(old(self)@, id) ==> count == 0 && final(self)@ == old(self)@,
    {
        match self.index_of(id) {
            Some(i) => {
                self.rows.remove(i);
                proof {
                    assert(final(self)@ =~= old(self)@.remove(i as int));
                }
                1
            },
            None => 0,
        }
    }
}

} // verus!
