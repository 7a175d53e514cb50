//! Turns a natural-language request into one shell command proposed by a
//! chat-completion backend, and gates its execution on the user's consent.
//!
//! The crate holds the decisions only: which backend identity a model
//! variant resolves to, what is sent, what is taken from the reply, how the
//! prompt cache changes, and how the confirmation dialogue proceeds. Reading
//! lines, sending requests, running the shell and touching files are left to
//! the caller, who feeds their outcomes back in as plain values.

pub mod cache;
pub mod gate;
pub mod model;
pub mod plan;
pub mod resolver;
pub mod setup;
pub mod shell;
pub mod text;
