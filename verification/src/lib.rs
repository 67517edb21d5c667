//! Management of a resource over a backend, verified.
//!
//! `management` holds the contracts: what it is to manage a resource, to be
//! a search, and to be a page of results. `error` holds the five kinds of
//! failure. `local` manages users over a relational backend and classifies
//! the backend's failures; `entity` is the user as stored and `user` what is
//! read of any user. `api` shows users, searches and errors to clients, and
//! `config` holds the settings of the service.

pub mod api;
pub mod config;
pub mod entity;
pub mod error;
pub mod identifier;
pub mod local;
pub mod management;
pub mod text;
pub mod user;
