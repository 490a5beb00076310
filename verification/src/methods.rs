//! What the requests carry, and how a stream of responses is told to end.

use crate::text::{append_decimal, append_hex, decimal, hex};
use vstd::prelude::*;
use vstd::string::*;

verus! {

/// A 32-byte root.
pub type Hash256 = [u8; 32];

/// The handshake two peers exchange to compare their view of the chain.
#[derive(Debug, Clone, Copy, PartialEq, Eq)]
pub struct StatusMessage {
    /// The fork the sender follows.
    pub fork_digest: [u8; 4],
    /// Root of the latest finalized block.
    pub finalized_root: Hash256,
    /// Epoch of the latest finalized block.
    pub finalized_epoch: u64,
    /// Root of the sender's head block.
    pub head_root: Hash256,
    /// Slot of the sender's head block.
    pub head_slot: u64,
}

impl StatusMessage {
    /// The message in words.
    pub open spec fn text(self) -> Seq<char> {
        "Fork Digest: ["@ + decimal(self.fork_digest@[0] as nat) + ", "@ + decimal(
            self.fork_digest@[1] as nat,
        ) + ", "@ + decimal(self.fork_digest@[2] as nat) + ", "@ + decimal(
            self.fork_digest@[3] as nat,
        ) + "], Finalized Root: 0x"@ + hex(self.finalized_root@) + ", Finalized Epoch: "@
            + decimal(self.finalized_epoch as nat) + ", Head Root: 0x"@ + hex(self.head_root@)
            + ", Head Slot: "@ + decimal(self.head_slot as nat)
    }

    /// Appends the message in words.
    pub fn append_to(&self, s: &mut String)
        ensures
            final(s)@ == old(s)@ + self.text(),
    {
        s.append("Fork Digest: [");
        append_decimal(s, self.fork_digest[0] as u64);
        s.append(", ");
        append_decimal(s, self.fork_digest[1] as u64);
        s.append(", ");
        append_decimal(s, self.fork_digest[2] as u64);
        s.append(", ");
        append_decimal(s, self.fork_digest[3] as u64);
        s.append("], Finalized Root: 0x");
        append_hex(s, self.finalized_root.as_slice());
        s.append(", Finalized Epoch: ");
        append_decimal(s, self.finalized_epoch);
        s.append(", Head Root: 0x");
        append_hex(s, self.head_root.as_slice());
        s.append(", Head Slot: ");
        append_decimal(s, self.head_slot);
        assert(s@ =~= old(s)@ + self.text());
    }
}

/// Why a peer is being told goodbye.
#[derive(Debug, Clone, Copy, PartialEq, Eq, Structural)]
pub enum GoodbyeReason {
    /// This node is shutting down.
    ClientShutdown,
    /// The peer is on another network.
    IrrelevantNetwork,
    /// An error occurred.
    Fault,
    /// The peer's network could not be verified.
    UnableToVerifyNetwork,
    /// This node has too many peers.
    TooManyPeers,
    /// The peer's score is too low.
    BadScore,
    /// The peer is banned.
    Banned,
    /// The peer's address is banned.
    BannedIP,
    /// No reason is known.
    Unknown,
}

impl GoodbyeReason {
    /// The reason in words.
    pub open spec fn text(self) -> Seq<char> {
        match self {
            GoodbyeReason::ClientShutdown => "Client Shutdown"@,
            GoodbyeReason::IrrelevantNetwork => "Irrelevant Network"@,
            GoodbyeReason::Fault => "Fault"@,
            GoodbyeReason::UnableToVerifyNetwork => "Unable to Verify Network"@,
            GoodbyeReason::TooManyPeers => "Too Many Peers"@,
            GoodbyeReason::BadScore => "Bad Score"@,
            GoodbyeReason::Banned => "Banned"@,
            GoodbyeReason::BannedIP => "Banned IP"@,
            GoodbyeReason::Unknown => "Unknown"@,
        }
    }

    /// The reason in words.
    pub fn as_str(&self) -> (s: &'static str)
        ensures
            s@ == self.text(),
    {
        match self {
            GoodbyeReason::ClientShutdown => "Client Shutdown",
            GoodbyeReason::IrrelevantNetwork => "Irrelevant Network",
            GoodbyeReason::Fault => "Fault",
            GoodbyeReason::UnableToVerifyNetwork => "Unable to Verify Network",
            GoodbyeReason::TooManyPeers => "Too Many Peers",
            GoodbyeReason::BadScore => "Bad Score",
            GoodbyeReason::Banned => "Banned",
            GoodbyeReason::BannedIP => "Banned IP",
            GoodbyeReason::Unknown => "Unknown",
        }
    }
}

/// A request for the blocks of a range of slots.
#[derive(Debug, Clone, Copy, PartialEq, Eq, Structural)]
pub struct BlocksByRangeRequest {
    /// The first slot of the range.
    pub start_slot: u64,
    /// How many blocks are asked for. Whoever makes the request has held
    /// the number to its limits; it is taken as given here.
    pub count: u64,
    /// The distance between two slots of the range.
    pub step: u64,
}

impl BlocksByRangeRequest {
    /// The request in words.
    pub open spec fn text(self) -> Seq<char> {
        "Start Slot: "@ + decimal(self.start_slot as nat) + ", Count: "@ + decimal(
            self.count as nat,
        ) + ", Step: "@ + decimal(self.step as nat)
    }

    /// Appends the request in words.
    pub fn append_to(&self, s: &mut String)
        ensures
            final(s)@ == old(s)@ + self.text(),
    {
        s.append("Start Slot: ");
        append_decimal(s, self.start_slot);
        s.append(", Count: ");
        append_decimal(s, self.count);
        s.append(", Step: ");
        append_decimal(s, self.step);
        assert(s@ =~= old(s)@ + self.text());
    }
}

/// A liveness probe.
#[derive(Debug, Clone, Copy, PartialEq, Eq, Structural)]
pub struct Ping {
    /// The sender's metadata sequence number.
    pub data: u64,
}

/// A request for the peer's metadata. It carries nothing.
#[derive(Debug, Clone, Copy, PartialEq, Eq, Structural)]
pub struct MetadataRequest {}

/// How the reader of a stream of responses tells that the stream has ended.
#[derive(Debug, Clone, Copy, PartialEq, Eq, Structural)]
pub enum ResponseTermination {
    /// The stream of blocks of a range ends when as many blocks have come as
    /// were asked for, or when the peer sends the end-of-stream frame,
    /// whichever is first.
    BlocksByRange,
}

/// Why a request could not be sent.
#[derive(Debug, Clone, Copy, PartialEq, Eq, Structural)]
pub enum RPCError {
    /// The peer and this node share no wire variant of the request.
    NegotiationFailure,
    /// The codec could not put the request into a frame.
    SerializationFailure,
    /// Writing to the stream, flushing it or closing it failed.
    IOFailure,
}

} // verus!
