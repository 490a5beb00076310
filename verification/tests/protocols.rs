use outbound_rpc::methods::{
    BlocksByRangeRequest, GoodbyeReason, MetadataRequest, Ping, StatusMessage,
};
use outbound_rpc::outbound::{OutboundRequest, OutboundRequestContainer};
use outbound_rpc::protocol::{Encoding, Protocol, ProtocolId, SupportedProtocol};

fn status() -> OutboundRequest {
    OutboundRequest::Status(StatusMessage {
        fork_digest: [1, 2, 3, 4],
        finalized_root: [0xab; 32],
        finalized_epoch: 7,
        head_root: [0x0f; 32],
        head_slot: 250,
    })
}

fn one_of_each() -> Vec<OutboundRequest> {
    vec![
        status(),
        OutboundRequest::Goodbye(GoodbyeReason::ClientShutdown),
        OutboundRequest::BlocksByRange(BlocksByRangeRequest { start_slot: 0, count: 10, step: 1 }),
        OutboundRequest::Ping(Ping { data: 1 }),
        OutboundRequest::MetaData(MetadataRequest {}),
    ]
}

#[test]
fn every_kind_has_a_protocol() {
    for req in one_of_each() {
        assert!(!req.supported_protocols().is_empty());
    }
}

#[test]
fn protocols_are_stable_across_calls() {
    for req in one_of_each() {
        assert_eq!(req.supported_protocols(), req.supported_protocols());
    }
}

#[test]
fn protocols_depend_on_the_kind_alone() {
    let a = OutboundRequest::BlocksByRange(BlocksByRangeRequest { start_slot: 0, count: 1, step: 1 });
    let b = OutboundRequest::BlocksByRange(BlocksByRangeRequest { start_slot: 9, count: 64, step: 2 });
    assert_eq!(a.supported_protocols(), b.supported_protocols());
}

#[test]
fn protocols_of_each_kind() {
    let expected = [
        SupportedProtocol::StatusV1,
        SupportedProtocol::GoodbyeV1,
        SupportedProtocol::BlocksByRange,
        SupportedProtocol::PingV1,
        SupportedProtocol::MetaDataV1,
    ];
    for (req, versioned) in one_of_each().into_iter().zip(expected) {
        assert_eq!(
            req.supported_protocols(),
            vec![ProtocolId { versioned_protocol: versioned, encoding: Encoding::SSZSnappy }]
        );
        assert_eq!(req.versioned_protocol(), versioned);
    }
}

#[test]
fn container_offers_the_protocols_of_its_request() {
    for req in one_of_each() {
        let container = OutboundRequestContainer { req, max_rpc_size: 1 << 20 };
        assert_eq!(container.protocol_info(), req.supported_protocols());
    }
}

#[test]
fn identifiers_have_the_wire_shape() {
    let expected = [
        "/eth2/beacon_chain/req/status/1/ssz_snappy",
        "/eth2/beacon_chain/req/goodbye/1/ssz_snappy",
        "/eth2/beacon_chain/req/beacon_blocks_by_range/1/ssz_snappy",
        "/eth2/beacon_chain/req/ping/1/ssz_snappy",
        "/eth2/beacon_chain/req/metadata/1/ssz_snappy",
    ];
    for (req, identifier) in one_of_each().into_iter().zip(expected) {
        let protocols = req.supported_protocols();
        assert_eq!(protocols.len(), 1);
        assert_eq!(protocols[0].protocol_id(), identifier);
    }
}

#[test]
fn range_fetch_identifier_names_method_version_and_encoding() {
    let id = ProtocolId::new(SupportedProtocol::BlocksByRange, Encoding::SSZSnappy);
    assert_eq!(id.versioned_protocol.protocol(), Protocol::BlocksByRange);
    assert_eq!(id.versioned_protocol.protocol().as_str(), "beacon_blocks_by_range");
    assert_eq!(id.versioned_protocol.version_string(), "1");
    assert_eq!(id.encoding.as_str(), "ssz_snappy");
    let text = id.protocol_id();
    let parts: Vec<&str> = text.split('/').collect();
    assert_eq!(parts, vec!["", "eth2", "beacon_chain", "req", "beacon_blocks_by_range", "1", "ssz_snappy"]);
}

#[test]
fn identifiers_are_distinct() {
    let all = [
        SupportedProtocol::StatusV1,
        SupportedProtocol::GoodbyeV1,
        SupportedProtocol::BlocksByRange,
        SupportedProtocol::PingV1,
        SupportedProtocol::MetaDataV1,
    ];
    for a in all {
        for b in all {
            let left = ProtocolId::new(a, Encoding::SSZSnappy);
            let right = ProtocolId::new(b, Encoding::SSZSnappy);
            assert_eq!(left.protocol_id() == right.protocol_id(), left == right);
        }
    }
}

#[test]
fn method_names() {
    assert_eq!(Protocol::Status.as_str(), "status");
    assert_eq!(Protocol::Goodbye.as_str(), "goodbye");
    assert_eq!(Protocol::BlocksByRange.as_str(), "beacon_blocks_by_range");
    assert_eq!(Protocol::Ping.as_str(), "ping");
    assert_eq!(Protocol::MetaData.as_str(), "metadata");
    assert_eq!(SupportedProtocol::StatusV1.protocol(), Protocol::Status);
    assert_eq!(SupportedProtocol::GoodbyeV1.protocol(), Protocol::Goodbye);
    assert_eq!(SupportedProtocol::PingV1.protocol(), Protocol::Ping);
    assert_eq!(SupportedProtocol::MetaDataV1.protocol(), Protocol::MetaData);
}
