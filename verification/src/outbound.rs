//! The requests this node can send, with what each expects in return.

use crate::methods::{
    BlocksByRangeRequest, GoodbyeReason, MetadataRequest, Ping, ResponseTermination, StatusMessage,
};
use crate::protocol::{Encoding, ProtocolId, SupportedProtocol};
use crate::text::{append_decimal, decimal};
use vstd::pervasive::unreached;
use vstd::prelude::*;
use vstd::string::*;

verus! {

/// A request together with the largest frame the codec may produce for it.
#[derive(Debug, Clone, Copy, PartialEq, Eq)]
pub struct OutboundRequestContainer {
    /// The request.
    pub req: OutboundRequest,
    /// The largest frame, in bytes, that the codec accepts.
    pub max_rpc_size: usize,
}

/// The requests this node can send.
#[derive(Debug, Clone, Copy, PartialEq, Eq)]
pub enum OutboundRequest {
    /// The handshake that compares the two peers' view of the chain.
    Status(StatusMessage),
    /// The notice that this node disconnects. Nothing comes in return.
    Goodbye(GoodbyeReason),
    /// The request for the blocks of a range of slots.
    BlocksByRange(BlocksByRangeRequest),
    /// The liveness probe.
    Ping(Ping),
    /// The request for the peer's metadata.
    MetaData(MetadataRequest),
}

impl OutboundRequest {
    /// The method and version the request is sent under.
    pub open spec fn versioned(self) -> SupportedProtocol {
        match self {
            OutboundRequest::Status(_) => SupportedProtocol::StatusV1,
            OutboundRequest::Goodbye(_) => SupportedProtocol::GoodbyeV1,
            OutboundRequest::BlocksByRange(_) => SupportedProtocol::BlocksByRange,
            OutboundRequest::Ping(_) => SupportedProtocol::PingV1,
            OutboundRequest::MetaData(_) => SupportedProtocol::MetaDataV1,
        }
    }

    /// The wire variants the request can be sent under, the preferred one first.
    pub open spec fn protocols(self) -> Seq<ProtocolId> {
        seq![ProtocolId { versioned_protocol: self.versioned(), encoding: Encoding::SSZSnappy }]
    }

    /// How many responses the request expects.
    pub open spec fn responses(self) -> nat {
        match self {
            OutboundRequest::Status(_) => 1,
            OutboundRequest::Goodbye(_) => 0,
            OutboundRequest::BlocksByRange(req) => req.count as nat,
            OutboundRequest::Ping(_) => 1,
            OutboundRequest::MetaData(_) => 1,
        }
    }

    /// Whether two requests are of one kind, whatever they carry.
    pub open spec fn same_kind(self, other: OutboundRequest) -> bool {
        match self {
            OutboundRequest::Status(_) => other is Status,
            OutboundRequest::Goodbye(_) => other is Goodbye,
            OutboundRequest::BlocksByRange(_) => other is BlocksByRange,
            OutboundRequest::Ping(_) => other is Ping,
            OutboundRequest::MetaData(_) => other is MetaData,
        }
    }

    /// Whether the number of responses depends on what the request carries:
    /// some request of the same kind expects another number.
    pub open spec fn variable_arity(self) -> bool {
        exists|other: OutboundRequest| #[trigger]
            self.same_kind(other) && other.responses() != self.responses()
    }

    /// Whether the responses come as a stream that has to be told to end.
    pub open spec fn streams(self) -> bool {
        match self {
            OutboundRequest::Status(_) => false,
            OutboundRequest::Goodbye(_) => false,
            OutboundRequest::BlocksByRange(_) => true,
            OutboundRequest::Ping(_) => false,
            OutboundRequest::MetaData(_) => false,
        }
    }

    /// The request in words.
    pub open spec fn text(self) -> Seq<char> {
        match self {
            OutboundRequest::Status(status) => "Status Message: "@ + status.text(),
            OutboundRequest::Goodbye(reason) => "Goodbye: "@ + reason.text(),
            OutboundRequest::BlocksByRange(req) => "Blocks by range: "@ + req.text(),
            OutboundRequest::Ping(ping) => "Ping: "@ + decimal(ping.data as nat),
            OutboundRequest::MetaData(_) => "MetaData request"@,
        }
    }

    /// The wire variants the request can be sent under, the preferred one
    /// first. There is always at least one, and the list depends on the kind
    /// of the request alone.
    pub fn supported_protocols(&self) -> (protocols: Vec<ProtocolId>)
        ensures
            protocols@ == self.protocols(),
            protocols@.len() > 0,
            forall|other: OutboundRequest| #[trigger]
                self.same_kind(other) ==> other.protocols() == protocols@,
    {
        let protocols = match self {
            OutboundRequest::Status(_) => vec![
                ProtocolId::new(SupportedProtocol::StatusV1, Encoding::SSZSnappy),
            ],
            OutboundRequest::Goodbye(_) => vec![
                ProtocolId::new(SupportedProtocol::GoodbyeV1, Encoding::SSZSnappy),
            ],
            OutboundRequest::BlocksByRange(_) => vec![
                ProtocolId::new(SupportedProtocol::BlocksByRange, Encoding::SSZSnappy),
            ],
            OutboundRequest::Ping(_) => vec![
                ProtocolId::new(SupportedProtocol::PingV1, Encoding::SSZSnappy),
            ],
            OutboundRequest::MetaData(_) => vec![
                ProtocolId::new(SupportedProtocol::MetaDataV1, Encoding::SSZSnappy),
            ],
        };
        assert(protocols@ =~= self.protocols());
        protocols
    }

    /// How many responses the request expects: none for a goodbye, as many
    /// as were asked for of a range of blocks, one for every other.
    pub fn expected_responses(&self) -> (n: u64)
        ensures
            n == self.responses(),
            self is Goodbye ==> n == 0,
            self matches OutboundRequest::BlocksByRange(req) ==> n == req.count,
            self is Status || self is Ping || self is MetaData ==> n == 1,
    {
        match self {
            OutboundRequest::Status(_) => 1,
            OutboundRequest::Goodbye(_) => 0,
            OutboundRequest::BlocksByRange(req) => req.count,
            OutboundRequest::Ping(_) => 1,
            OutboundRequest::MetaData(_) => 1,
        }
    }

    /// The method and version the request is sent under.
    pub fn versioned_protocol(&self) -> (protocol: SupportedProtocol)
        ensures
            protocol == self.versioned(),
    {
        match self {
            OutboundRequest::Status(_) => SupportedProtocol::StatusV1,
            OutboundRequest::Goodbye(_) => SupportedProtocol::GoodbyeV1,
            OutboundRequest::BlocksByRange(_) => SupportedProtocol::BlocksByRange,
            OutboundRequest::Ping(_) => SupportedProtocol::PingV1,
            OutboundRequest::MetaData(_) => SupportedProtocol::MetaDataV1,
        }
    }

    /// Whether the responses come as a stream that has to be told to end.
    /// That is so exactly where the number of responses depends on what the
    /// request carries.
    pub fn requires_stream_termination(&self) -> (streams: bool)
        ensures
            streams == self.streams(),
            streams == self.variable_arity(),
    {
        proof {
            lemma_streams_iff_variable_arity(*self);
        }
        match self {
            OutboundRequest::Status(_) => false,
            OutboundRequest::Goodbye(_) => false,
            OutboundRequest::BlocksByRange(_) => true,
            OutboundRequest::Ping(_) => false,
            OutboundRequest::MetaData(_) => false,
        }
    }

    /// How the reader tells that the stream of responses has ended. Only a
    /// request whose responses come as a stream has an answer.
    pub fn stream_termination(&self) -> (termination: ResponseTermination)
        requires
            self.streams(),
        ensures
            termination == ResponseTermination::BlocksByRange,
    {
        match self {
            OutboundRequest::BlocksByRange(_) => ResponseTermination::BlocksByRange,
            OutboundRequest::Status(_) => unreached(),
            OutboundRequest::Goodbye(_) => unreached(),
            OutboundRequest::Ping(_) => unreached(),
            OutboundRequest::MetaData(_) => unreached(),
        }
    }

    /// The request in words.
    pub fn description(&self) -> (s: String)
        ensures
            s@ == self.text(),
    {
        let mut s = String::new();
        match self {
            OutboundRequest::Status(status) => {
                s.append("Status Message: ");
                status.append_to(&mut s);
            },
            OutboundRequest::Goodbye(reason) => {
                s.append("Goodbye: ");
                s.append(reason.as_str());
            },
            OutboundRequest::BlocksByRange(req) => {
                s.append("Blocks by range: ");
                req.append_to(&mut s);
            },
            OutboundRequest::Ping(ping) => {
                s.append("Ping: ");
                append_decimal(&mut s, ping.data);
            },
            OutboundRequest::MetaData(_) => {
                s.append("MetaData request");
            },
        }
        assert(s@ =~= self.text());
        s
    }
}

impl OutboundRequestContainer {
    /// The wire variants offered to the protocol-selection handshake, the
    /// preferred one first.
    pub fn protocol_info(&self) -> (protocols: Vec<ProtocolId>)
        ensures
            protocols@ == self.req.protocols(),
            protocols@.len() > 0,
    {
        self.req.supported_protocols()
    }
}

/// Every request has a wire variant to be sent under, each of its variants
/// is one of its own method, and requests of one kind have the same.
pub proof fn lemma_protocols_nonempty(req: OutboundRequest, other: OutboundRequest)
    ensures
        req.protocols().len() > 0,
        forall|i: int|
            0 <= i < req.protocols().len() ==> (#[trigger] req.protocols()[i]).versioned_protocol
                == req.versioned(),
        req.same_kind(other) <==> req.protocols() == other.protocols(),
{
    assert(req.protocols()[0] == other.protocols()[0] ==> req.versioned() == other.versioned());
}

/// The responses come as a stream exactly where the number of responses
/// depends on what the request carries.
pub proof fn lemma_streams_iff_variable_arity(req: OutboundRequest)
    ensures
        req.streams() <==> req.variable_arity(),
{
    if let OutboundRequest::BlocksByRange(range) = req {
        let count: u64 = if range.count == 0 {
            1
        } else {
            0
        };
        let other = OutboundRequest::BlocksByRange(
            BlocksByRangeRequest { start_slot: range.start_slot, count, step: range.step },
        );
        assert(req.same_kind(other) && other.responses() != req.responses());
    }
}

/// The responses come as a stream exactly where a request of the kind can
/// expect more than one response.
pub proof fn lemma_streams_iff_many_responses(req: OutboundRequest)
    ensures
        req.streams() <==> exists|other: OutboundRequest| #[trigger]
            req.same_kind(other) && other.responses() > 1,
{
    if let OutboundRequest::BlocksByRange(range) = req {
        let other = OutboundRequest::BlocksByRange(
            BlocksByRangeRequest { start_slot: range.start_slot, count: 2, step: range.step },
        );
        assert(req.same_kind(other) && other.responses() > 1);
    }
}

} // verus!
