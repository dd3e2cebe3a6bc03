//! A ready-made protocol handler driven by a fixed participation policy.
//!
//! Many sub-protocols need no per-peer decision logic: they either always
//! participate, or participate only for one direction, and have one fixed
//! answer when the peer does not share the capability. [`PolicyProtocolHandler`]
//! captures that directly and doubles as the reference implementation of the
//! handler traits.

use vstd::prelude::*;
use crate::capability::{Protocol, SharedCapabilities};
use crate::handler::{
    Connection, ConnectionHandler, Direction, OnNotSupported, PeerId, ProtocolHandler, SocketAddr,
};
use crate::proxy::ProtocolStream;

verus! {

/// A protocol handler with a fixed participation policy: it opts in for
/// inbound and/or outbound attempts regardless of the remote, and resolves an
/// unsupported capability with one fixed answer.
#[derive(Debug, PartialEq, Eq)]
pub struct PolicyProtocolHandler {
    /// The protocol announced whenever the handler participates.
    pub protocol: Protocol,
    /// Whether the protocol is offered on inbound attempts.
    pub announce_incoming: bool,
    /// Whether the protocol is offered on outbound attempts.
    pub announce_outgoing: bool,
    /// The policy when the peer does not share the capability.
    pub on_unsupported: OnNotSupported,
}

impl PolicyProtocolHandler {
    /// A handler that offers `protocol` on every attempt and keeps the
    /// session alive when the peer does not share it.
    pub fn new(protocol: Protocol) -> (r: PolicyProtocolHandler)
        ensures
            r == (PolicyProtocolHandler {
                protocol,
                announce_incoming: true,
                announce_outgoing: true,
                on_unsupported: OnNotSupported::KeepAlive,
            }),
    {
        PolicyProtocolHandler {
            protocol,
            announce_incoming: true,
            announce_outgoing: true,
            on_unsupported: OnNotSupported::KeepAlive,
        }
    }

    /// The connection handler this policy produces when it participates.
    pub open spec fn spec_connection_handler(self) -> PolicyConnectionHandler {
        PolicyConnectionHandler { protocol: self.protocol, on_unsupported: self.on_unsupported }
    }
}

impl Clone for PolicyProtocolHandler {
    fn clone(&self) -> (r: Self)
        ensures
            r == *self,
    {
        PolicyProtocolHandler {
            protocol: self.protocol.clone(),
            announce_incoming: self.announce_incoming,
            announce_outgoing: self.announce_outgoing,
            on_unsupported: self.on_unsupported,
        }
    }
}

impl ProtocolHandler for PolicyProtocolHandler {
    type ConnectionHandler = PolicyConnectionHandler;

    open spec fn spec_on_incoming(&self, socket_addr: SocketAddr) -> Option<
        PolicyConnectionHandler,
    > {
        if self.announce_incoming {
            Some(self.spec_connection_handler())
        } else {
            None
        }
    }

    open spec fn spec_on_outgoing(&self, socket_addr: SocketAddr, peer_id: PeerId) -> Option<
        PolicyConnectionHandler,
    > {
        if self.announce_outgoing {
            Some(self.spec_connection_handler())
        } else {
            None
        }
    }

    fn on_incoming(&self, socket_addr: SocketAddr) -> (r: Option<PolicyConnectionHandler>) {
        if self.announce_incoming {
            Some(PolicyConnectionHandler {
                protocol: self.protocol.clone(),
                on_unsupported: self.on_unsupported,
            })
        } else {
            None
        }
    }

    fn on_outgoing(&self, socket_addr: SocketAddr, peer_id: PeerId) -> (r: Option<
        PolicyConnectionHandler,
    >) {
        if self.announce_outgoing {
            Some(PolicyConnectionHandler {
                protocol: self.protocol.clone(),
                on_unsupported: self.on_unsupported,
            })
        } else {
            None
        }
    }
}

/// The per-attempt connection handler of a [`PolicyProtocolHandler`]: it
/// announces the configured protocol, answers an unsupported capability with
/// the configured policy, and accepts every established sub-stream.
#[derive(Debug, PartialEq, Eq)]
pub struct PolicyConnectionHandler {
    /// The protocol to announce.
    pub protocol: Protocol,
    /// The policy when the peer does not share the capability.
    pub on_unsupported: OnNotSupported,
}

impl ConnectionHandler for PolicyConnectionHandler {
    type Connection = PolicyConnection;

    type P2PConnection = ProtocolStream;

    open spec fn spec_protocol(&self) -> Protocol {
        self.protocol
    }

    open spec fn spec_on_unsupported_by_peer(
        self,
        supported: SharedCapabilities,
        direction: Direction,
        peer_id: PeerId,
    ) -> OnNotSupported {
        self.on_unsupported
    }

    open spec fn spec_into_connection(
        self,
        direction: Direction,
        peer_id: PeerId,
        conn: ProtocolStream,
    ) -> Option<PolicyConnection> {
        Some(PolicyConnection { stream: conn })
    }

    fn protocol(&self) -> (r: &Protocol) {
        &self.protocol
    }

    fn on_unsupported_by_peer(
        self,
        supported: &SharedCapabilities,
        direction: Direction,
        peer_id: PeerId,
    ) -> (r: OnNotSupported) {
        self.on_unsupported
    }

    fn into_connection(
        self,
        direction: Direction,
        peer_id: PeerId,
        conn: ProtocolStream,
    ) -> (r: Option<PolicyConnection>) {
        Some(PolicyConnection { stream: conn })
    }
}

/// The live connection of a [`PolicyConnectionHandler`]: the sub-stream bound
/// to the negotiated capability, through which the sub-protocol's messages
/// pass the message-ID proxy.
#[derive(Debug, PartialEq, Eq)]
pub struct PolicyConnection {
    /// The per-capability sub-stream the connection runs on.
    pub stream: ProtocolStream,
}

impl Connection for PolicyConnection {

}

} // verus!
