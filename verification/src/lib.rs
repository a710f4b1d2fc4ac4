//! Verified core of a small user-management server.
//!
//! The library covers the session model, the declarative allow-list
//! authorization with its audit trail, input validation, credential
//! hashing, the in-memory user store, and the per-action dispatch rules
//! that tie them together.  Transport and persistence live outside the
//! library and hand it plain values.

pub mod access;
pub mod action;
pub mod crypto;
pub mod database;
pub mod error;
pub mod user;
pub mod validate_inputs;
