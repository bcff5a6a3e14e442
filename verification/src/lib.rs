//! A line-oriented "virtual notepad" service core.
//!
//! Each connected client registers a username, edits an in-memory text
//! buffer through whitespace-tokenized commands, and persists the buffer
//! to per-user files. This crate holds the verified core: the registry of
//! active usernames, the command parser, the session buffer transitions,
//! and the response text each step owes the client. The network and file
//! I/O that drive these transitions live outside the library.

pub mod command;
pub mod handler;
pub mod machine;
pub mod registry;
pub mod session;
pub mod storage;
pub mod text;
