use wsl_headless_dev::relay::Direction;
use wsl_headless_dev::relay::DirectionStatus;
use wsl_headless_dev::relay::Relay;

#[test]
fn forward_hands_back_the_same_bytes() {
    let mut relay = Relay::new();
    let chunk: Vec<u8> = b"ping".to_vec();
    let out = relay.forward(Direction::InboundToOutbound, &chunk);
    assert_eq!(out, chunk);
    assert_eq!(relay.inbound_to_outbound.count, 4);
    assert_eq!(relay.outbound_to_inbound.count, 0);
}

#[test]
fn forward_accumulates_counts_in_both_directions() {
    let mut relay = Relay::new();
    let a = relay.forward(Direction::InboundToOutbound, &b"hello ".to_vec());
    let b = relay.forward(Direction::InboundToOutbound, &b"world".to_vec());
    let c = relay.forward(Direction::OutboundToInbound, &b"ok".to_vec());
    assert_eq!(a, b"hello ".to_vec());
    assert_eq!(b, b"world".to_vec());
    assert_eq!(c, b"ok".to_vec());
    assert_eq!(relay.inbound_to_outbound.count, 11);
    assert_eq!(relay.outbound_to_inbound.count, 2);
}

#[test]
fn half_close_keeps_the_other_direction_flowing() {
    let mut relay = Relay::new();
    relay.source_closed(Direction::InboundToOutbound);
    assert!(relay.inbound_to_outbound.status == DirectionStatus::SourceClosed);
    assert!(relay.outbound_to_inbound.status == DirectionStatus::Open);
    let out = relay.forward(Direction::OutboundToInbound, &b"still here".to_vec());
    assert_eq!(out, b"still here".to_vec());
    assert_eq!(relay.outbound_to_inbound.count, 10);
}

#[test]
fn report_counts_and_success_after_clean_drain() {
    let mut relay = Relay::new();
    relay.forward(Direction::InboundToOutbound, &b"ping".to_vec());
    relay.forward(Direction::OutboundToInbound, &b"pong!".to_vec());
    relay.source_closed(Direction::InboundToOutbound);
    relay.source_closed(Direction::OutboundToInbound);
    let report = relay.report();
    assert_eq!(report.bytes_to_outbound, 4);
    assert_eq!(report.bytes_to_inbound, 5);
    assert!(report.success);
}

#[test]
fn report_failure_with_partial_counts() {
    let mut relay = Relay::new();
    relay.forward(Direction::InboundToOutbound, &b"abc".to_vec());
    relay.direction_failed(Direction::InboundToOutbound);
    relay.source_closed(Direction::OutboundToInbound);
    let report = relay.report();
    assert!(!report.success);
    assert_eq!(report.bytes_to_outbound, 3);
    assert_eq!(report.bytes_to_inbound, 0);
}

#[test]
fn failure_in_one_direction_leaves_the_other_untouched() {
    let mut relay = Relay::new();
    relay.forward(Direction::OutboundToInbound, &b"xy".to_vec());
    relay.direction_failed(Direction::InboundToOutbound);
    assert!(relay.outbound_to_inbound.status == DirectionStatus::Open);
    assert_eq!(relay.outbound_to_inbound.count, 2);
    let out = relay.forward(Direction::OutboundToInbound, &b"z".to_vec());
    assert_eq!(out, b"z".to_vec());
    assert_eq!(relay.outbound_to_inbound.count, 3);
}

#[test]
fn empty_chunk_moves_nothing() {
    let mut relay = Relay::new();
    let out = relay.forward(Direction::InboundToOutbound, &Vec::new());
    assert!(out.is_empty());
    assert_eq!(relay.inbound_to_outbound.count, 0);
}
