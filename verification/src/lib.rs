//! A repository of user records: the record and its lifecycle, the table that
//! holds the records, and the create, read, update and delete operations on it.

pub mod clock;
pub mod error;
pub mod ident;
pub mod table;
pub mod user;
