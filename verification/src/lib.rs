//! Verified core of a small GitHub command-line helper.
//!
//! The library holds the logic of the tool: the credential store's record
//! format and its read-modify-write rules, the OAuth device-authorization
//! flow expressed as a state machine, and the pure parsing and decision
//! helpers behind the individual commands.  All file, network, terminal and
//! process work lives outside the library, which only ever computes on plain
//! values.

pub mod json;
pub mod config;
pub mod auth;
pub mod github;
pub mod commands;
pub mod ai;
