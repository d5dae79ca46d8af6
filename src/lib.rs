//! The request-handling layer of a CRUD service over a single `users` table.
//!
//! A request is first turned into one parameterised statement (`plan`), the
//! statement is run against a session, and the session's outcome is mapped to a
//! response (`respond`). `UserTable` is an in-process session with the
//! semantics of the `users` table, over which the service's laws are proved.

pub mod user;
pub mod id;
pub mod handler;
pub mod table;
pub mod laws;
