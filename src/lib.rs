//! Verified core of a bridge that lets native async tasks settle the futures
//! of a host interpreter (`concurrent.futures.Future` semantics).
//!
//! - [`future`] holds the state machine of such a future, as the bridge relies on it.
//! - [`executor`] holds the worker pool and its shutdown flag.
//! - [`worker`] holds the script that each submitted task follows.
//! - [`nursery`] holds how a waiter reads a settled future.
//! - [`bundler`] holds the names that the standalone-interpreter bundler computes.
pub mod bundler;
pub mod executor;
pub mod future;
pub mod nursery;
pub mod worker;
