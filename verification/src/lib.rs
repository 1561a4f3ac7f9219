//! Decision logic of an HTTP front-end that serves the objects of one bucket of
//! an object store: startup configuration, request routing, and the mapping of
//! a fetch outcome to an HTTP response.
//!
//! Everything here works on plain values. Reading the process environment,
//! talking to the object store and writing to sockets are left to the caller.

pub mod config;
pub mod handler;
pub mod port;
pub mod response;
pub mod text;
