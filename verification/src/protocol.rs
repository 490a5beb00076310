//! Wire protocol identifiers: method, version and encoding.

use vstd::prelude::*;
use vstd::string::*;

verus! {

/// How the frames of a stream are encoded.
#[derive(Debug, Clone, Copy, PartialEq, Eq, Structural)]
pub enum Encoding {
    /// SSZ serialization wrapped in snappy frame compression.
    SSZSnappy,
}

impl Encoding {
    /// The encoding's name as it appears in an identifier.
    pub open spec fn name(self) -> Seq<char> {
        match self {
            Encoding::SSZSnappy => "ssz_snappy"@,
        }
    }

    /// The encoding's name as it appears in an identifier.
    pub fn as_str(&self) -> (s: &'static str)
        ensures
            s@ == self.name(),
    {
        match self {
            Encoding::SSZSnappy => "ssz_snappy",
        }
    }
}

/// The request methods, without their version.
#[derive(Debug, Clone, Copy, PartialEq, Eq, Structural)]
pub enum Protocol {
    /// The handshake that compares the two peers' view of the chain.
    Status,
    /// The notice that a node disconnects.
    Goodbye,
    /// The request for the blocks of a range of slots.
    BlocksByRange,
    /// The liveness probe.
    Ping,
    /// The request for a peer's metadata.
    MetaData,
}

impl Protocol {
    /// The method's name as it appears in an identifier.
    pub open spec fn name(self) -> Seq<char> {
        match self {
            Protocol::Status => "status"@,
            Protocol::Goodbye => "goodbye"@,
            Protocol::BlocksByRange => "beacon_blocks_by_range"@,
            Protocol::Ping => "ping"@,
            Protocol::MetaData => "metadata"@,
        }
    }

    /// The method's name as it appears in an identifier.
    pub fn as_str(&self) -> (s: &'static str)
        ensures
            s@ == self.name(),
    {
        match self {
            Protocol::Status => "status",
            Protocol::Goodbye => "goodbye",
            Protocol::BlocksByRange => "beacon_blocks_by_range",
            Protocol::Ping => "ping",
            Protocol::MetaData => "metadata",
        }
    }
}

/// A request method at one of its versions.
#[derive(Debug, Clone, Copy, PartialEq, Eq, Structural)]
pub enum SupportedProtocol {
    /// Version 1 of the status handshake.
    StatusV1,
    /// Version 1 of the goodbye notice.
    GoodbyeV1,
    /// Version 1 of the request for the blocks of a range.
    BlocksByRange,
    /// Version 1 of the liveness probe.
    PingV1,
    /// Version 1 of the request for metadata.
    MetaDataV1,
}

impl SupportedProtocol {
    /// The method this is a version of.
    pub open spec fn method(self) -> Protocol {
        match self {
            SupportedProtocol::StatusV1 => Protocol::Status,
            SupportedProtocol::GoodbyeV1 => Protocol::Goodbye,
            SupportedProtocol::BlocksByRange => Protocol::BlocksByRange,
            SupportedProtocol::PingV1 => Protocol::Ping,
            SupportedProtocol::MetaDataV1 => Protocol::MetaData,
        }
    }

    /// The version as it appears in an identifier.
    pub open spec fn version(self) -> Seq<char> {
        match self {
            SupportedProtocol::StatusV1 => "1"@,
            SupportedProtocol::GoodbyeV1 => "1"@,
            SupportedProtocol::BlocksByRange => "1"@,
            SupportedProtocol::PingV1 => "1"@,
            SupportedProtocol::MetaDataV1 => "1"@,
        }
    }

    /// The method this is a version of.
    pub fn protocol(&self) -> (p: Protocol)
        ensures
            p == self.method(),
    {
        match self {
            SupportedProtocol::StatusV1 => Protocol::Status,
            SupportedProtocol::GoodbyeV1 => Protocol::Goodbye,
            SupportedProtocol::BlocksByRange => Protocol::BlocksByRange,
            SupportedProtocol::PingV1 => Protocol::Ping,
            SupportedProtocol::MetaDataV1 => Protocol::MetaData,
        }
    }

    /// The version as it appears in an identifier.
    pub fn version_string(&self) -> (s: &'static str)
        ensures
            s@ == self.version(),
    {
        match self {
            SupportedProtocol::StatusV1 => "1",
            SupportedProtocol::GoodbyeV1 => "1",
            SupportedProtocol::BlocksByRange => "1",
            SupportedProtocol::PingV1 => "1",
            SupportedProtocol::MetaDataV1 => "1",
        }
    }
}

/// The namespace every identifier starts with.
pub open spec fn namespace() -> Seq<char> {
    "/eth2/beacon_chain/req"@
}

/// One wire variant of a request: a method at a version, in an encoding.
#[derive(Debug, Clone, Copy, PartialEq, Eq, Structural)]
pub struct ProtocolId {
    /// The method and its version.
    pub versioned_protocol: SupportedProtocol,
    /// The encoding of the frames.
    pub encoding: Encoding,
}

impl ProtocolId {
    /// The identifier as the protocol-selection handshake sees it:
    /// `/<namespace>/<method>/<version>/<encoding>`.
    pub open spec fn identifier(self) -> Seq<char> {
        namespace() + "/"@ + self.versioned_protocol.method().name() + "/"@
            + self.versioned_protocol.version() + "/"@ + self.encoding.name()
    }

    /// The wire variant of a method at a version, in an encoding.
    pub fn new(versioned_protocol: SupportedProtocol, encoding: Encoding) -> (id: ProtocolId)
        ensures
            id == (ProtocolId { versioned_protocol, encoding }),
    {
        ProtocolId { versioned_protocol, encoding }
    }

    /// Writes the identifier out.
    pub fn protocol_id(&self) -> (s: String)
        ensures
            s@ == self.identifier(),
    {
        let mut s = String::from_str("/eth2/beacon_chain/req");
        s.append("/");
        s.append(self.versioned_protocol.protocol().as_str());
        s.append("/");
        s.append(self.versioned_protocol.version_string());
        s.append("/");
        s.append(self.encoding.as_str());
        s
    }
}

/// An identifier names one wire variant only: two variants with the same
/// identifier are the same variant.
pub proof fn lemma_identifier_unique(a: ProtocolId, b: ProtocolId)
    requires
        a.identifier() == b.identifier(),
    ensures
        a == b,
{
    reveal_strlit("/eth2/beacon_chain/req");
    reveal_strlit("/");
    reveal_strlit("status");
    reveal_strlit("goodbye");
    reveal_strlit("beacon_blocks_by_range");
    reveal_strlit("ping");
    reveal_strlit("metadata");
    let at = namespace().len() + 1;
    assert(a.identifier()[at as int] == a.versioned_protocol.method().name()[0]);
    assert(b.identifier()[at as int] == b.versioned_protocol.method().name()[0]);
}

} // verus!
