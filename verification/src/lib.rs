//! Orchestration layer between a blockchain node's subsystems and its
//! peer-to-peer network engine.
//!
//! The library models the command protocol that the rest of the node uses to
//! talk to the network layer, the validation performed at the façade before a
//! command is queued, and the single-owner event loop's decision logic: what
//! each inbound command, network event, or imported block height makes the
//! actor do to the network engine, to its subscribers, and to its own
//! lifecycle. The asynchronous plumbing around these decisions (channels, the
//! multiplexed wait, the engine itself) lives outside the library and drives
//! it with plain values.

pub mod facade;
pub mod laws;
pub mod peer_id;
pub mod protocol;
pub mod task;
pub mod types;
