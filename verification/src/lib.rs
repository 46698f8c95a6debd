//! The session core of a rendezvous relay: two peers present the same one-time
//! token, and the first and second socket that bear it are paired.
//!
//! [`generator`] holds the sources of raw 32-bit values from which tokens are
//! derived; [`zebra_session_manager`] holds the store of live sessions and the
//! rules by which a socket is held, paired or dropped; [`session_lifecycle`]
//! proves what follows from those rules for a session's whole life.

pub mod generator;
pub mod session_lifecycle;
pub mod zebra_session_manager;
