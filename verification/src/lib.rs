//! Coordination of key-provisioning jobs handed out to remote workers.
//!
//! A coordinator keeps a registry of workers, queues jobs for a named worker,
//! lets that worker poll for and complete them, and keeps the outcome of every
//! completed job. Beside it stand the descriptions of devices that are drawn
//! from the user agent of a request.

pub mod clock;
pub mod error;
pub mod events;
pub mod headers;
pub mod job;
pub mod laws;
pub mod registry;
pub mod server;
pub mod state;
pub mod worker;
