//! Behavioural tests for the sub-protocol negotiation layer.

use rlpx_subprotocol::capability::{Capability, Protocol, SharedCapabilities};
use rlpx_subprotocol::handler::{
    negotiate, Direction, NegotiationOutcome, OnNotSupported, PeerId, SocketAddr,
};
use rlpx_subprotocol::policy::{PolicyConnectionHandler, PolicyProtocolHandler};
use rlpx_subprotocol::proxy::{ProtocolStream, ProxyProtocol};
use rlpx_subprotocol::registry::{IntoRlpxSubProtocol, RlpxSubProtocols};

fn cap1() -> Capability {
    Capability::new("cap".to_string(), 1)
}

fn addr() -> SocketAddr {
    SocketAddr { ip: 0x7f_00_00_01, port: 30303 }
}

fn record_with_cap1() -> SharedCapabilities {
    SharedCapabilities::try_new(vec![Protocol::new(cap1(), 4)]).unwrap()
}

fn record_without_cap1() -> SharedCapabilities {
    SharedCapabilities::try_new(vec![Protocol::new(
        Capability::new("other".to_string(), 2),
        7,
    )])
    .unwrap()
}

#[test]
fn record_assigns_ranges_above_reserved_prefix() {
    let caps = SharedCapabilities::try_new(vec![
        Protocol::new(cap1(), 4),
        Protocol::new(Capability::new("other".to_string(), 2), 3),
    ])
    .unwrap();
    assert_eq!(caps.len(), 2);
    assert_eq!(caps.get(0).offset, 16);
    assert_eq!(caps.get(0).messages, 4);
    assert_eq!(caps.get(1).offset, 20);
    assert_eq!(caps.get(1).messages, 3);
}

#[test]
fn record_rejects_ranges_that_do_not_fit() {
    // 16 reserved + 200 + 41 exceeds the one-byte ID space.
    let r = SharedCapabilities::try_new(vec![
        Protocol::new(cap1(), 200),
        Protocol::new(Capability::new("other".to_string(), 2), 41),
    ]);
    assert!(r.is_none());
    // 16 + 200 + 40 fits exactly.
    let r = SharedCapabilities::try_new(vec![
        Protocol::new(cap1(), 200),
        Protocol::new(Capability::new("other".to_string(), 2), 40),
    ]);
    assert!(r.is_some());
}

#[test]
fn record_rejects_protocol_without_messages() {
    let r = SharedCapabilities::try_new(vec![Protocol::new(cap1(), 0)]);
    assert!(r.is_none());
}

#[test]
fn record_lookup_finds_shared_capability() {
    let caps = record_with_cap1();
    assert!(caps.contains(&cap1()));
    let entry = caps.shared_capability(&cap1()).unwrap();
    assert_eq!(entry.offset, 16);
    // Same name, different version: not the same capability.
    assert!(!caps.contains(&Capability::new("cap".to_string(), 2)));
    assert!(!caps.contains(&Capability::new("other".to_string(), 1)));
}

#[test]
fn masking_round_trips_within_declared_range() {
    let caps = record_with_cap1();
    let stream = ProtocolStream::new(caps.get(0).clone());
    for id in 0u8..4 {
        let masked = stream.relative_mask_msg_id(vec![id, 0xab]);
        assert_eq!(masked[0], 16 + id);
        assert_eq!(masked[1], 0xab);
        let back = stream.unmask_msg_id(masked);
        assert_eq!(back, vec![id, 0xab]);
    }
}

#[test]
fn masking_maps_relative_two_to_absolute_eighteen() {
    // Capability "cap/1" holds the ID range [16, 20).
    let caps = record_with_cap1();
    let stream = ProtocolStream::new(caps.get(0).clone());
    let masked = stream.relative_mask_msg_id(vec![2]);
    assert_eq!(masked, vec![18]);
}

#[test]
fn out_of_range_absolute_id_is_not_accepted() {
    // Capability "cap/1" holds [16, 20); absolute ID 25 is not its message.
    let caps = record_with_cap1();
    let stream = ProtocolStream::new(caps.get(0).clone());
    assert!(stream.accepts_msg_id(16));
    assert!(stream.accepts_msg_id(19));
    assert!(!stream.accepts_msg_id(20));
    assert!(!stream.accepts_msg_id(25));
    assert!(!stream.accepts_msg_id(15));
}

#[test]
fn proxy_reports_its_shared_capability() {
    let caps = record_with_cap1();
    let stream = ProtocolStream::new(caps.get(0).clone());
    assert_eq!(stream.shared_capability(), caps.get(0));
}

#[test]
fn registry_queries_handlers_in_registration_order() {
    // H1 always opts in; H2 opts in only for outbound attempts.
    let h1 = PolicyProtocolHandler::new(Protocol::new(cap1(), 4));
    let h2 = PolicyProtocolHandler {
        protocol: Protocol::new(Capability::new("other".to_string(), 2), 3),
        announce_incoming: false,
        announce_outgoing: true,
        on_unsupported: OnNotSupported::KeepAlive,
    };
    let mut registry: RlpxSubProtocols<PolicyProtocolHandler> = RlpxSubProtocols::new();
    registry.push(h1);
    registry.push(h2);
    assert_eq!(registry.len(), 2);

    let incoming = registry.on_incoming(addr()).into_handlers();
    assert_eq!(incoming.len(), 1);
    assert_eq!(incoming[0].protocol.cap.name, "cap");

    let outgoing = registry.on_outgoing(addr(), PeerId(7)).into_handlers();
    assert_eq!(outgoing.len(), 2);
    assert_eq!(outgoing[0].protocol.cap.name, "cap");
    assert_eq!(outgoing[1].protocol.cap.name, "other");
}

#[test]
fn declined_attempts_contribute_nothing() {
    let h = PolicyProtocolHandler {
        protocol: Protocol::new(cap1(), 4),
        announce_incoming: false,
        announce_outgoing: false,
        on_unsupported: OnNotSupported::KeepAlive,
    };
    let mut registry: RlpxSubProtocols<PolicyProtocolHandler> = RlpxSubProtocols::new();
    registry.push(h);
    assert!(registry.on_incoming(addr()).is_empty());
    assert!(registry.on_outgoing(addr(), PeerId(7)).is_empty());
}

#[test]
fn registry_default_is_empty() {
    let registry: RlpxSubProtocols<PolicyProtocolHandler> = RlpxSubProtocols::default();
    assert!(registry.is_empty());
    assert_eq!(registry.on_incoming(addr()).len(), 0);
}

#[test]
fn pushing_a_wrapped_handler_is_idempotent() {
    let h = PolicyProtocolHandler::new(Protocol::new(cap1(), 4));
    let mut direct: RlpxSubProtocols<PolicyProtocolHandler> = RlpxSubProtocols::new();
    direct.push(h.clone());
    // Pushing the already wrapped handler must behave exactly the same.
    let mut wrapped: RlpxSubProtocols<PolicyProtocolHandler> = RlpxSubProtocols::new();
    wrapped.push(h.into_rlpx_sub_protocol());
    assert_eq!(direct.len(), wrapped.len());
    let a = direct.on_incoming(addr()).into_handlers();
    let b = wrapped.on_incoming(addr()).into_handlers();
    assert_eq!(a, b);
}

#[test]
fn unsupported_capability_resolves_to_policy_not_connection() {
    // The record lacks "cap/1": the handler must be told the peer does not
    // support it, and no connection may be constructed.
    let ch = PolicyConnectionHandler {
        protocol: Protocol::new(cap1(), 4),
        on_unsupported: OnNotSupported::KeepAlive,
    };
    let outcome = negotiate(ch, &record_without_cap1(), Direction::Incoming, PeerId(1));
    assert_eq!(outcome, NegotiationOutcome::Unsupported(OnNotSupported::KeepAlive));
}

#[test]
fn disconnect_policy_propagates_teardown() {
    let ch = PolicyConnectionHandler {
        protocol: Protocol::new(cap1(), 4),
        on_unsupported: OnNotSupported::Disconnect,
    };
    let outcome = negotiate(ch, &record_without_cap1(), Direction::Outgoing, PeerId(1));
    assert_eq!(outcome, NegotiationOutcome::Unsupported(OnNotSupported::Disconnect));
}

#[test]
fn shared_capability_resolves_to_connection_on_its_range() {
    let ch = PolicyConnectionHandler {
        protocol: Protocol::new(cap1(), 4),
        on_unsupported: OnNotSupported::KeepAlive,
    };
    let outcome = negotiate(ch, &record_with_cap1(), Direction::Incoming, PeerId(1));
    match outcome {
        NegotiationOutcome::Established(Some(conn)) => {
            assert_eq!(conn.stream.cap.offset, 16);
            assert_eq!(conn.stream.cap.messages, 4);
            assert_eq!(conn.stream.cap.cap, cap1());
        }
        _ => panic!("expected an established connection"),
    }
}

#[test]
fn record_lookup_returns_the_first_match() {
    let caps = SharedCapabilities::try_new(vec![
        Protocol::new(cap1(), 4),
        Protocol::new(cap1(), 6),
    ])
    .unwrap();
    let entry = caps.shared_capability(&cap1()).unwrap();
    assert_eq!(entry.offset, 16);
    assert_eq!(entry.messages, 4);
}

#[test]
fn default_policy_keeps_the_session_alive() {
    assert_eq!(OnNotSupported::default(), OnNotSupported::KeepAlive);
}

#[test]
fn capability_matches_name_and_version() {
    let a = Capability::new("cap".to_string(), 1);
    assert!(a.matches(&Capability::new("cap".to_string(), 1)));
    assert!(!a.matches(&Capability::new("cap".to_string(), 2)));
    assert!(!a.matches(&Capability::new("pac".to_string(), 1)));
}
