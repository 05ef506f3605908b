//! Verified core of a desktop launcher that provisions per-project development
//! containers: a Docker Engine client's request building and response
//! classification, a conflict-free port allocator, an OpenSSL-compatible
//! credential vault for SSH deploy keys, the container entrypoint template,
//! and the create/start rollback state machine.
//!
//! All I/O (sockets, files, processes) lives outside this crate; the library
//! computes requests, decisions and payloads from plain values and states in
//! its contracts exactly what it returns.

pub mod auth;
pub mod engine;
pub mod github;
pub mod jsontext;
pub mod lifecycle;
pub mod ports;
pub mod servers;
pub mod sshkeys;
pub mod state;
pub mod strutil;
pub mod updater;
pub mod vault;
