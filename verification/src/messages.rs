//! The messages nodes exchange over the peer-to-peer network.
use vstd::prelude::*;

verus! {

/// A request to another node.
#[derive(Debug, Clone)]
pub enum NockchainRequest {
    /// Request a block or transaction from another node, carrying proof of work.
    Request { pow: [u8; 16], nonce: u64, message: Vec<u8> },
    /// Gossip a block or transaction to another node.
    Gossip { message: Vec<u8> },
}

/// A node's answer.
#[derive(Debug, Clone)]
pub enum NockchainResponse {
    /// The requested block or raw transaction.
    Result { message: Vec<u8> },
    /// The answer to a gossip: no content is needed.
    Ack { acked: bool },
}

} // verus!
