//! The user record and the operations of its repository.

pub mod laws;
pub mod model;
