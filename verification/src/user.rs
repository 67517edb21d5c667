//! The user resource.

pub mod userable;
