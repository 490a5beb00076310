use outbound_rpc::methods::{
    BlocksByRangeRequest, GoodbyeReason, MetadataRequest, Ping, ResponseTermination, StatusMessage,
};
use outbound_rpc::outbound::OutboundRequest;

fn status_message() -> StatusMessage {
    StatusMessage {
        fork_digest: [0, 0, 0, 0],
        finalized_root: [0; 32],
        finalized_epoch: 0,
        head_root: [0; 32],
        head_slot: 0,
    }
}

fn range(count: u64) -> OutboundRequest {
    OutboundRequest::BlocksByRange(BlocksByRangeRequest { start_slot: 100, count, step: 1 })
}

fn all_reasons() -> [GoodbyeReason; 9] {
    [
        GoodbyeReason::ClientShutdown,
        GoodbyeReason::IrrelevantNetwork,
        GoodbyeReason::Fault,
        GoodbyeReason::UnableToVerifyNetwork,
        GoodbyeReason::TooManyPeers,
        GoodbyeReason::BadScore,
        GoodbyeReason::Banned,
        GoodbyeReason::BannedIP,
        GoodbyeReason::Unknown,
    ]
}

#[test]
fn goodbye_expects_no_response_whatever_the_reason() {
    for reason in all_reasons() {
        assert_eq!(OutboundRequest::Goodbye(reason).expected_responses(), 0);
    }
}

#[test]
fn range_expects_as_many_responses_as_it_asks_for() {
    for count in [0u64, 1, 2, 10, 64, 1024, u64::MAX - 1, u64::MAX] {
        assert_eq!(range(count).expected_responses(), count);
    }
}

#[test]
fn range_of_zero_expects_zero() {
    assert_eq!(range(0).expected_responses(), 0);
}

#[test]
fn range_count_does_not_depend_on_start_or_step() {
    let a = OutboundRequest::BlocksByRange(BlocksByRangeRequest { start_slot: 0, count: 7, step: 1 });
    let b = OutboundRequest::BlocksByRange(BlocksByRangeRequest {
        start_slot: u64::MAX,
        count: 7,
        step: 32,
    });
    assert_eq!(a.expected_responses(), 7);
    assert_eq!(b.expected_responses(), 7);
}

#[test]
fn single_response_kinds_expect_one() {
    assert_eq!(OutboundRequest::Status(status_message()).expected_responses(), 1);
    assert_eq!(OutboundRequest::Ping(Ping { data: 0 }).expected_responses(), 1);
    assert_eq!(OutboundRequest::Ping(Ping { data: u64::MAX }).expected_responses(), 1);
    assert_eq!(OutboundRequest::MetaData(MetadataRequest {}).expected_responses(), 1);
}

#[test]
fn only_a_range_requires_stream_termination() {
    assert!(range(0).requires_stream_termination());
    assert!(range(1).requires_stream_termination());
    assert!(range(10).requires_stream_termination());
    assert!(!OutboundRequest::Status(status_message()).requires_stream_termination());
    assert!(!OutboundRequest::Ping(Ping { data: 5 }).requires_stream_termination());
    assert!(!OutboundRequest::MetaData(MetadataRequest {}).requires_stream_termination());
    for reason in all_reasons() {
        assert!(!OutboundRequest::Goodbye(reason).requires_stream_termination());
    }
}

#[test]
fn a_range_has_a_termination() {
    for count in [0u64, 1, 10] {
        let req = range(count);
        assert!(req.requires_stream_termination());
        assert_eq!(req.stream_termination(), ResponseTermination::BlocksByRange);
    }
}
