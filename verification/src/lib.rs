//! Shutdown coordination for a pool of worker threads that drive a shared
//! async executor.
//!
//! The verified core models the two components: a monotonic, broadcastable
//! stop signal ([`signal`]) and the structured lifecycle of the worker pool
//! ([`runner`]). The surrounding shell that owns the OS threads, the atomic
//! flag and the event primitive drives these decision functions.

pub mod runner;
pub mod signal;
