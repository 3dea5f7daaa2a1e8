//! Plain-value models of the domain data the orchestration logic reads.
//!
//! Payloads the actor only carries through (transactions, blocks, votes,
//! sealed headers) are held as opaque byte strings; peer identities are the
//! raw byte-string form in which the rest of the node addresses peers; block
//! heights are the integers they wrap.

use vstd::prelude::*;

verus! {

/// Capacity of the bounded command channel between the façade and the actor.
pub const COMMAND_CHANNEL_CAPACITY: usize = 100;

/// Capacity of each of the three broadcast channels (transaction gossip,
/// block-height heartbeat, reserved-peer count).
pub const BROADCAST_CHANNEL_CAPACITY: usize = 100;

/// A block identifier: the 32-byte hash under which a block is addressed.
pub type BlockId = [u8; 32];

/// A half-open range of block heights, `start` inclusive, `end` exclusive.
#[derive(Clone, Copy, Debug, PartialEq, Eq)]
pub struct HeightRange {
    pub start: u32,
    pub end: u32,
}

impl HeightRange {
    /// Number of heights the range covers; a range whose end does not exceed
    /// its start covers none.
    pub open spec fn spec_len(self) -> int {
        if self.start < self.end {
            self.end - self.start
        } else {
            0
        }
    }

    pub fn len(&self) -> (n: u32)
        ensures
            n == self.spec_len(),
    {
        if self.start < self.end {
            self.end - self.start
        } else {
            0
        }
    }

    pub fn is_empty(&self) -> (r: bool)
        ensures
            r == (self.spec_len() == 0),
    {
        self.start >= self.end
    }
}

/// Validation verdict on a previously received gossip message, to be relayed
/// to the network engine so it can reward or penalise the propagating peer.
#[derive(Clone, Copy, Debug, PartialEq, Eq)]
pub enum GossipsubMessageAcceptance {
    Accept,
    Reject,
    Ignore,
}

/// A gossip payload as it arrives from the network.
#[derive(Clone, Debug, PartialEq, Eq)]
pub enum GossipsubMessage {
    NewTx(Vec<u8>),
    NewBlock(Vec<u8>),
    ConsensusVote(Vec<u8>),
}

/// Provenance of a gossip message: the peer it arrived from and the
/// network-assigned message identifier.
#[derive(Clone, Debug, PartialEq, Eq)]
pub struct GossipsubMessageInfo {
    pub message_id: Vec<u8>,
    pub peer_id: Vec<u8>,
}

/// A gossip payload bundled with its provenance, as handed to subscribers.
#[derive(Clone, Debug, PartialEq, Eq)]
pub struct GossipData {
    pub data: Vec<u8>,
    pub peer_id: Vec<u8>,
    pub message_id: Vec<u8>,
}

/// A peer's advertised chain height, re-emitted to heartbeat subscribers.
#[derive(Clone, Debug, PartialEq, Eq)]
pub struct BlockHeightHeartbeatData {
    pub peer_id: Vec<u8>,
    pub block_height: u32,
}

/// Why the façade refused to turn a caller's arguments into a command.
#[derive(Clone, Copy, Debug, PartialEq, Eq)]
pub enum FacadeError {
    /// A sealed-headers request covered no heights at all.
    EmptyRange,
    /// A sealed-headers request covered more heights than the configured
    /// maximum a single request may carry.
    RangeTooLarge,
    /// A peer identity byte string does not parse as a peer identity.
    InvalidPeerId,
}

} // verus!
