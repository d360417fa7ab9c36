//! Supervisor for a locally hosted backend process: port selection,
//! readiness probing, log relaying, and exactly-once termination.
//!
//! The crate holds the decision logic of the supervisor. All operating-system
//! work (binding sockets, spawning the backend, reading its pipes, sending the
//! kill signal) is carried out by a thin driver around this crate, which feeds
//! the observed outcomes back into the state machines defined here.

pub mod lifecycle;
pub mod logging;
pub mod ports;
pub mod probe;
pub mod relay;
pub mod slot;
pub mod supervisor;
pub mod text;
