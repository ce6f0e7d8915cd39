//! An idempotency-key based exactly-once execution guard.
//!
//! A caller supplies an owner identity and a client-chosen idempotency key;
//! the library ensures that a guarded side-effecting operation executes at
//! most once per (owner, key) pair, and that every retry observes the same
//! saved response the first successful execution produced.

pub mod confirm;
pub mod key;
pub mod laws;
pub mod login;
pub mod newsletter;
pub mod orchestrator;
pub mod record;
pub mod response;
pub mod store;
