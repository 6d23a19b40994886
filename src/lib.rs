//! A small HTTP service's core: a request counter, the two request handlers
//! and the server's configuration. The HTTP plumbing lives outside this crate.

pub mod config;
pub mod counter;
pub mod handlers;
