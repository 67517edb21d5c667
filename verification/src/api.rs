//! Users, searches and errors as clients see them.

pub mod error;
pub mod read;
pub mod user;
