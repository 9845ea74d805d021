//! Decision logic of a small command-line helper that stages, commits and
//! pushes with `git`.
//!
//! The library never starts a process and never touches a file. A caller asks
//! it what to do next, does that, and reports what happened; every answer the
//! library gives is specified and proved.

pub mod config;
pub mod laws;
pub mod message;
pub mod ops;
pub mod outcome;
pub mod request;
pub mod table;
pub mod text;
pub mod workflow;
