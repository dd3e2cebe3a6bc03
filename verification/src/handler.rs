//! Protocol handlers and connection handlers: the per-attempt negotiation
//! state machine.
//!
//! A protocol handler decides, once per connection attempt, whether its
//! sub-protocol should be offered at all; if so it produces a connection
//! handler. The connection handler is a one-shot continuation: after the
//! handshake the transport consumes it by value, exactly once, through either
//! `on_unsupported_by_peer` (the peer does not share the capability) or
//! `into_connection` (it does). Consuming by value makes a second transition
//! impossible to express, not merely disallowed at runtime.

use vstd::prelude::*;
use crate::capability::{Protocol, SharedCapabilities};
use crate::proxy::{ProtocolStream, ProxyProtocol};

verus! {

/// The identity of a remote peer, established by the transport underneath;
/// opaque to this layer.
#[derive(Debug, Clone, Copy, PartialEq, Eq, Structural, Hash)]
pub struct PeerId(pub u64);

/// The remote socket address of a connection attempt, as plain values;
/// opaque to this layer.
#[derive(Debug, Clone, Copy, PartialEq, Eq, Structural, Hash)]
pub struct SocketAddr {
    /// The remote IP address, as an integer.
    pub ip: u128,
    /// The remote port.
    pub port: u16,
}

/// Whether a connection attempt is inbound or outbound; the tag is carried
/// through the whole negotiation.
#[derive(Debug, Clone, Copy, PartialEq, Eq, Structural, Hash)]
pub enum Direction {
    /// The remote peer opened the connection.
    Incoming,
    /// The local node opened the connection.
    Outgoing,
}

/// What to do when a protocol is not supported by the remote.
///
/// This is an expected, first-class outcome of negotiation, not a fault.
#[derive(Debug, Clone, Copy, PartialEq, Eq, Structural, Hash)]
pub enum OnNotSupported {
    /// Proceed with the connection and ignore the protocol.
    KeepAlive,
    /// Disconnect the whole peer connection.
    Disconnect,
}

impl Default for OnNotSupported {
    /// When a handler does not care, the session is kept alive.
    fn default() -> (r: Self)
        ensures
            r == OnNotSupported::KeepAlive,
    {
        OnNotSupported::KeepAlive
    }
}

/// An established sub-protocol connection as returned by a
/// [`ConnectionHandler`]: a live bidirectional message stream bound to one
/// accepted capability. Driving the stream is the transport's asynchronous
/// work and happens outside this layer; when the stream ends, the transport
/// tears down the whole peer session.
pub trait Connection {

}

/// An established connection to the peer, handed to a [`ConnectionHandler`]
/// to build a sub-protocol [`Connection`] on: a per-capability sub-stream
/// whose message IDs pass through the message-ID proxy.
pub trait P2PConnection: ProxyProtocol {

}

impl<T: ProxyProtocol> P2PConnection for T {

}

/// Offers an additional RLPx-based application-level protocol when a
/// peer-to-peer connection is being established.
///
/// Decisions are pure and local: they must not block or perform I/O, since
/// they run on the path that establishes the whole peer session. Each
/// implementation states its decision as a specification function, and the
/// executable methods are bound to it.
pub trait ProtocolHandler: Sized {
    /// The type responsible for negotiating the protocol with the remote.
    type ConnectionHandler: ConnectionHandler;

    /// The handler's decision for an inbound attempt from `socket_addr`.
    spec fn spec_on_incoming(&self, socket_addr: SocketAddr) -> Option<Self::ConnectionHandler>;

    /// The handler's decision for an outbound attempt to `peer_id` at
    /// `socket_addr`.
    spec fn spec_on_outgoing(&self, socket_addr: SocketAddr, peer_id: PeerId) -> Option<
        Self::ConnectionHandler,
    >;

    /// Invoked when a new incoming connection from the remote is requested.
    ///
    /// Returning a connection handler means the protocol it reports will be
    /// announced to the remote; returning `None` means the protocol is not
    /// offered at all for this attempt.
    fn on_incoming(&self, socket_addr: SocketAddr) -> (r: Option<Self::ConnectionHandler>)
        ensures
            r == self.spec_on_incoming(socket_addr),
    ;

    /// Invoked when a new outgoing connection to the remote is requested;
    /// the remote's identity is available because outbound attempts target a
    /// known peer.
    fn on_outgoing(&self, socket_addr: SocketAddr, peer_id: PeerId) -> (r: Option<
        Self::ConnectionHandler,
    >)
        ensures
            r == self.spec_on_outgoing(socket_addr, peer_id),
    ;
}

/// Negotiates one offered protocol after the RLPx connection was established.
///
/// The handler is consumed by value on either terminal transition, so exactly
/// one of `on_unsupported_by_peer` and `into_connection` can ever be invoked
/// on it.
pub trait ConnectionHandler: Sized {
    /// The sub-protocol connection produced when the capability was accepted.
    type Connection: Connection;

    /// The underlying per-capability connection the sub-protocol connection
    /// is built on.
    type P2PConnection: P2PConnection;

    /// The protocol this handler will announce.
    spec fn spec_protocol(&self) -> Protocol;

    /// The handler's policy decision when the peer does not share the
    /// protocol.
    spec fn spec_on_unsupported_by_peer(
        self,
        supported: SharedCapabilities,
        direction: Direction,
        peer_id: PeerId,
    ) -> OnNotSupported;

    /// The sub-protocol connection the handler builds on `conn` when the
    /// peer shares the protocol, if any.
    spec fn spec_into_connection(
        self,
        direction: Direction,
        peer_id: PeerId,
        conn: Self::P2PConnection,
    ) -> Option<Self::Connection>;

    /// Returns the protocol to announce when the p2p connection is
    /// established; it is used to negotiate the capability's message-ID
    /// range with the remote peer.
    fn protocol(&self) -> (r: &Protocol)
        ensures
            *r == self.spec_protocol(),
    ;

    /// Invoked when the RLPx connection was established but the peer does
    /// not share this protocol, consuming the handler. The returned policy
    /// decides whether the whole session stays alive or is torn down.
    fn on_unsupported_by_peer(
        self,
        supported: &SharedCapabilities,
        direction: Direction,
        peer_id: PeerId,
    ) -> (r: OnNotSupported)
        ensures
            r == self.spec_on_unsupported_by_peer(*supported, direction, peer_id),
    ;

    /// Invoked when the RLPx connection was established and the peer shares
    /// this protocol, consuming the handler and returning the live
    /// sub-protocol connection bound to the underlying sub-stream, if the
    /// handler still wants one.
    fn into_connection(
        self,
        direction: Direction,
        peer_id: PeerId,
        conn: Self::P2PConnection,
    ) -> (r: Option<Self::Connection>)
        ensures
            r == self.spec_into_connection(direction, peer_id, conn),
    ;
}

/// How one offered protocol was resolved after the handshake: exactly one of
/// the two terminal transitions of the connection handler. Only the
/// established transition can carry a connection, so an unsupported
/// capability can never cause connection construction.
#[derive(Debug, PartialEq, Eq)]
pub enum NegotiationOutcome<C> {
    /// The peer does not share the capability; the handler's policy says
    /// whether the session survives.
    Unsupported(OnNotSupported),
    /// The peer shares the capability; the handler built the connection, or
    /// declined after all.
    Established(Option<C>),
}

/// Whether the outcome carries a live sub-protocol connection.
pub open spec fn outcome_establishes<C>(r: NegotiationOutcome<C>) -> bool {
    r matches NegotiationOutcome::Established(Some(_))
}

/// Whether the outcome obliges the transport to tear down the whole peer
/// session: a disconnect policy is the only non-established outcome that
/// does.
pub open spec fn outcome_tears_down_session<C>(r: NegotiationOutcome<C>) -> bool {
    r == NegotiationOutcome::<C>::Unsupported(OnNotSupported::Disconnect)
}

/// An unsupported capability never causes connection construction, whatever
/// the policy; and of the two unsupported policies only `Disconnect` tears
/// the session down.
pub proof fn lemma_unsupported_never_connects<C>(r: NegotiationOutcome<C>)
    ensures
        r is Unsupported ==> !outcome_establishes(r),
        outcome_tears_down_session(r) ==> r is Unsupported,
        r == NegotiationOutcome::<C>::Unsupported(OnNotSupported::KeepAlive) ==> !outcome_establishes(r)
            && !outcome_tears_down_session(r),
{
}

/// Resolves one offered protocol against the negotiation record: the peer's
/// record lacking the capability leads to `on_unsupported_by_peer`, never to
/// `into_connection`; a shared capability leads to `into_connection` on a
/// stream bound to exactly the record entry of the protocol the handler
/// announced.
pub fn negotiate<H: ConnectionHandler<P2PConnection = ProtocolStream>>(
    handler: H,
    supported: &SharedCapabilities,
    direction: Direction,
    peer_id: PeerId,
) -> (r: NegotiationOutcome<H::Connection>)
    ensures
        match supported.spec_shared_capability(handler.spec_protocol().cap) {
            None => r == NegotiationOutcome::<H::Connection>::Unsupported(
                handler.spec_on_unsupported_by_peer(*supported, direction, peer_id),
            ),
            Some(entry) => r == NegotiationOutcome::<H::Connection>::Established(
                handler.spec_into_connection(
                    direction,
                    peer_id,
                    ProtocolStream { cap: entry },
                ),
            ),
        },
{
    let found = supported.shared_capability(&handler.protocol().cap);
    match found {
        None => NegotiationOutcome::Unsupported(
            handler.on_unsupported_by_peer(supported, direction, peer_id),
        ),
        Some(entry) => {
            let stream = ProtocolStream::new(entry.clone());
            NegotiationOutcome::Established(handler.into_connection(direction, peer_id, stream))
        },
    }
}

} // verus!
