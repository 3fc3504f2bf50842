//! Capability-based kernel-object core: object identity, rights-qualified
//! handles, and the channel IPC primitive that moves byte payloads and
//! capabilities between two connected endpoints.

pub mod channel;
pub mod error;
pub mod handle;
pub mod object;
pub mod packet;
pub mod port;
pub mod rights;
pub mod task;
