//! Core of an event-driven recruitment coordinator.
//!
//! One user announces that a number of slots are wanted for an activity;
//! other users join until the quota is met, or the announcement is
//! cancelled. This crate holds the concurrency-critical core: a session
//! store with atomic compound operations, and the lifecycle rules that
//! interpret create, join and cancel events against it. The adapter that
//! talks to the chat platform lives outside and only exchanges plain
//! values with this core.

pub mod laws;
pub mod lifecycle;
pub mod session;
pub mod store;
