//! Users over a relational backend.

pub mod error;
pub mod selection;
pub mod store;
pub mod user;
