//! A minimal verified token registry: unique string token ids mapped to
//! owned, described records, with write-once collection metadata and a
//! single privileged identity allowed to mint.
//!
//! The registry itself is pure, in-memory state; a host that persists the
//! state and authenticates callers hands plain values in and out.

pub mod registry;
pub mod store;
pub mod types;
