//! The outbound-write actor of a multiplexed connection: many logical streams
//! share one socket, and the actor serialises their payloads onto it while it
//! routes per-stream status and session checkpoints back to the reporters.
pub mod channel;
pub mod event;
pub mod machine;
pub mod laws;
pub mod registry;
pub mod sender;
