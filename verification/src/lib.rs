//! A minimal local service manager, as a verified core.
//!
//! A service is an executable started in the background and remembered by
//! the path it was launched from. The registry is the ordered list of the
//! services that are running; it is read from disk before every operation
//! and written back after every change.
//!
//! This crate holds the registry and the two operations on it, start and
//! stop, as pure transitions. Spawning and killing processes, and reading and
//! writing the registry file, are left to the caller: an operation first says
//! what the operating system has to be asked for, and is then finished with
//! the answer.

pub mod controller;
pub mod laws;
pub mod registry;
pub mod service;
pub mod store;
