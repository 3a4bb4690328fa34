//! Per-connection core of a real-time event gateway: topic routing,
//! connection registry, bounded direct delivery, and the outbound
//! multiplexer's state machine with its close-code protocol.

pub mod topic;
pub mod close;
pub mod registry;
pub mod channel;
pub mod connection;
