//! Core of a minimal task-list application split between a browser client
//! and an in-memory HTTP server: a reactive value cell with ordered
//! subscriber notification, an ordered task store addressed by position, the
//! synchronization protocol that mirrors every optimistic client mutation in
//! an index-addressed request, and the server's handling of those requests.

pub mod protocol;
pub mod routes;
pub mod server;
pub mod signal;
pub mod store;
pub mod task;
pub mod text;
pub mod ticker;
pub mod wire;
