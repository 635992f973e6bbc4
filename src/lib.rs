//! A rendezvous primitive: processes wait on a named local socket until some
//! other process signals it, and a detached coordinator mediates the release.
//!
//! The library holds the decisions of every participant as verified state
//! machines: which readiness source an event belongs to (`token`), how the
//! coordinator's connection table reacts to each event (`coordinator`), how
//! the detachment sequence assigns roles (`detach`), and how one invocation
//! moves between trying, spawning and retrying (`bootstrap`).

pub mod bootstrap;
pub mod coordinator;
pub mod detach;
pub mod token;
