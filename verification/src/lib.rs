//! A small user directory kept in a Firebase Realtime Database.
//!
//! - [`record`]: the user, and the answer of the database to a stored user;
//! - [`json`]: JSON documents, read and built with `serde_json`;
//! - [`codec`]: the records as JSON documents and back;
//! - [`database`]: the places of the database that the requests go to;
//! - [`session`]: the order of the requests, from storing a user to deleting
//!   it.
//!
//! Nothing here talks to the network. A program performs the requests with
//! `firebase_rs` and hands the answers, as texts, to this library.

pub mod codec;
pub mod database;
pub mod json;
pub mod record;
pub mod session;
