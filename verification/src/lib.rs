//! A runtime library for message-passing nodes in a simulated distributed
//! cluster: wire envelopes with request/reply correlation, the init
//! handshake, a generic node state machine contract, and a gossip-based
//! broadcast engine that converges an append-only set of values over an
//! arbitrary neighbour topology.

pub mod broadcast;
pub mod echo;
pub mod laws;
pub mod message_set;
pub mod node;
pub mod protocol;
pub mod topology;
pub mod unique;
