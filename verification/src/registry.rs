//! The sub-protocol registry: an ordered, append-only collection of protocol
//! handlers, queried by the transport once per connection attempt.
//!
//! The registry is populated at configuration time and treated as read-only
//! afterwards. On every attempt each registered handler is asked exactly
//! once, in registration order, whether it wants to participate; the handlers
//! that opted in are returned in that order.

use vstd::prelude::*;
use vstd::seq_lib::*;
use crate::handler::{PeerId, ProtocolHandler, SocketAddr};

verus! {

/// A wrapper type for one registered RLPx sub-protocol.
pub struct RlpxSubProtocol<H: ProtocolHandler> {
    /// The protocol handler registered for the sub-protocol.
    pub handler: H,
}

/// Converts a protocol handler into a registrable [`RlpxSubProtocol`]. An
/// already wrapped handler converts to itself, so wrapping is idempotent.
pub trait IntoRlpxSubProtocol: Sized {
    /// The protocol handler the conversion wraps.
    type Handler: ProtocolHandler;

    /// The wrapped form this value converts to.
    spec fn spec_into_rlpx_sub_protocol(self) -> RlpxSubProtocol<Self::Handler>;

    /// Converts the value into a [`RlpxSubProtocol`].
    fn into_rlpx_sub_protocol(self) -> (r: RlpxSubProtocol<Self::Handler>)
        ensures
            r == self.spec_into_rlpx_sub_protocol(),
    ;
}

impl<T: ProtocolHandler> IntoRlpxSubProtocol for T {
    type Handler = T;

    open spec fn spec_into_rlpx_sub_protocol(self) -> RlpxSubProtocol<T> {
        RlpxSubProtocol { handler: self }
    }

    fn into_rlpx_sub_protocol(self) -> (r: RlpxSubProtocol<T>) {
        RlpxSubProtocol { handler: self }
    }
}

impl<H: ProtocolHandler> IntoRlpxSubProtocol for RlpxSubProtocol<H> {
    type Handler = H;

    open spec fn spec_into_rlpx_sub_protocol(self) -> RlpxSubProtocol<H> {
        self
    }

    fn into_rlpx_sub_protocol(self) -> (r: RlpxSubProtocol<H>) {
        self
    }
}

/// Wrapping is idempotent: pushing an already wrapped handler behaves exactly
/// as pushing the handler itself, with no second layer of wrapping.
pub proof fn lemma_into_rlpx_sub_protocol_idempotent<T: ProtocolHandler>(t: T)
    ensures
        t.spec_into_rlpx_sub_protocol().spec_into_rlpx_sub_protocol()
            == t.spec_into_rlpx_sub_protocol(),
{
}

/// The connection handlers produced for the inbound attempt from
/// `socket_addr`: the decisions of the handlers of `ps`, in registration
/// order, with the declined attempts left out.
pub open spec fn incoming_handlers<H: ProtocolHandler>(
    ps: Seq<RlpxSubProtocol<H>>,
    socket_addr: SocketAddr,
) -> Seq<H::ConnectionHandler>
    decreases ps.len(),
{
    if ps.len() == 0 {
        Seq::empty()
    } else {
        let rest = incoming_handlers(ps.drop_last(), socket_addr);
        match ps.last().handler.spec_on_incoming(socket_addr) {
            Some(c) => rest.push(c),
            None => rest,
        }
    }
}

/// The connection handlers produced for the outbound attempt to `peer_id` at
/// `socket_addr`, in registration order, with the declined attempts left out.
pub open spec fn outgoing_handlers<H: ProtocolHandler>(
    ps: Seq<RlpxSubProtocol<H>>,
    socket_addr: SocketAddr,
    peer_id: PeerId,
) -> Seq<H::ConnectionHandler>
    decreases ps.len(),
{
    if ps.len() == 0 {
        Seq::empty()
    } else {
        let rest = outgoing_handlers(ps.drop_last(), socket_addr, peer_id);
        match ps.last().handler.spec_on_outgoing(socket_addr, peer_id) {
            Some(c) => rest.push(c),
            None => rest,
        }
    }
}

/// An attempt never yields more connection handlers than there are
/// registered protocols: every handler is asked exactly once, and a declined
/// attempt contributes nothing.
pub proof fn lemma_incoming_handlers_len<H: ProtocolHandler>(
    ps: Seq<RlpxSubProtocol<H>>,
    socket_addr: SocketAddr,
)
    ensures
        incoming_handlers(ps, socket_addr).len() <= ps.len(),
    decreases ps.len(),
{
    if ps.len() > 0 {
        lemma_incoming_handlers_len(ps.drop_last(), socket_addr);
    }
}

/// The outbound counterpart of [`lemma_incoming_handlers_len`].
pub proof fn lemma_outgoing_handlers_len<H: ProtocolHandler>(
    ps: Seq<RlpxSubProtocol<H>>,
    socket_addr: SocketAddr,
    peer_id: PeerId,
)
    ensures
        outgoing_handlers(ps, socket_addr, peer_id).len() <= ps.len(),
    decreases ps.len(),
{
    if ps.len() > 0 {
        lemma_outgoing_handlers_len(ps.drop_last(), socket_addr, peer_id);
    }
}

/// Additional RLPx-based sub-protocols: the ordered, append-only registry of
/// protocol handlers. Populated once during setup; read-only afterwards, so
/// simultaneous connection attempts may query it concurrently.
pub struct RlpxSubProtocols<H: ProtocolHandler> {
    /// All registered sub-protocols, in registration order.
    protocols: Vec<RlpxSubProtocol<H>>,
}

impl<H: ProtocolHandler> View for RlpxSubProtocols<H> {
    type V = Seq<RlpxSubProtocol<H>>;

    closed spec fn view(&self) -> Seq<RlpxSubProtocol<H>> {
        self.protocols@
    }
}

impl<H: ProtocolHandler> Default for RlpxSubProtocols<H> {
    /// An empty registry.
    fn default() -> (r: Self)
        ensures
            r@ == Seq::<RlpxSubProtocol<H>>::empty(),
    {
        RlpxSubProtocols { protocols: Vec::new() }
    }
}

impl<H: ProtocolHandler> RlpxSubProtocols<H> {
    /// An empty registry.
    pub fn new() -> (r: Self)
        ensures
            r@ == Seq::<RlpxSubProtocol<H>>::empty(),
    {
        RlpxSubProtocols { protocols: Vec::new() }
    }

    /// Adds a new protocol, appending it to the registration order.
    pub fn push<P: IntoRlpxSubProtocol<Handler = H>>(&mut self, protocol: P)
        ensures
            final(self)@ == old(self)@.push(protocol.spec_into_rlpx_sub_protocol()),
    {
        self.protocols.push(protocol.into_rlpx_sub_protocol());
    }

    /// The number of registered sub-protocols.
    pub fn len(&self) -> (r: usize)
        ensures
            r == self@.len(),
    {
        self.protocols.len()
    }

    /// Whether no sub-protocol is registered.
    pub fn is_empty(&self) -> (r: bool)
        ensures
            r == (self@.len() == 0),
    {
        self.protocols.len() == 0
    }

    /// A reference to the sub-protocol at position `i` of the registration
    /// order.
    pub fn get(&self, i: usize) -> (r: &RlpxSubProtocol<H>)
        requires
            i < self@.len(),
        ensures
            *r == self@[i as int],
    {
        &self.protocols[i]
    }

    /// Returns all connection handlers that should be announced to the
    /// remote during the RLPx handshake on an incoming connection attempt:
    /// every registered handler is asked exactly once, in registration
    /// order, and the declined attempts are left out.
    pub fn on_incoming(&self, socket_addr: SocketAddr) -> (r: RlpxSubProtocolHandlers<
        H::ConnectionHandler,
    >)
        ensures
            r@ == incoming_handlers(self@, socket_addr),
    {
        let mut out: Vec<H::ConnectionHandler> = Vec::new();
        let mut i: usize = 0;
        proof {
            assert(self@.take(0) =~= Seq::<RlpxSubProtocol<H>>::empty());
        }
        while i < self.protocols.len()
            invariant
                i <= self@.len(),
                out@ == incoming_handlers(self@.take(i as int), socket_addr),
            decreases self@.len() - i,
        {
            proof {
                assert(self@.take(i + 1).drop_last() =~= self@.take(i as int));
                assert(self@.take(i + 1).last() == self@[i as int]);
            }
            match self.protocols[i].handler.on_incoming(socket_addr) {
                Some(c) => out.push(c),
                None => {},
            }
            i = i + 1;
        }
        proof {
            assert(self@.take(i as int) =~= self@);
        }
        RlpxSubProtocolHandlers { handlers: out }
    }

    /// Returns all connection handlers that should be announced to the
    /// remote during the RLPx handshake on an outgoing connection attempt,
    /// in registration order, the declined attempts left out.
    pub fn on_outgoing(&self, socket_addr: SocketAddr, peer_id: PeerId) -> (r:
        RlpxSubProtocolHandlers<H::ConnectionHandler>)
        ensures
            r@ == outgoing_handlers(self@, socket_addr, peer_id),
    {
        let mut out: Vec<H::ConnectionHandler> = Vec::new();
        let mut i: usize = 0;
        proof {
            assert(self@.take(0) =~= Seq::<RlpxSubProtocol<H>>::empty());
        }
        while i < self.protocols.len()
            invariant
                i <= self@.len(),
                out@ == outgoing_handlers(self@.take(i as int), socket_addr, peer_id),
            decreases self@.len() - i,
        {
            proof {
                assert(self@.take(i + 1).drop_last() =~= self@.take(i as int));
                assert(self@.take(i + 1).last() == self@[i as int]);
            }
            match self.protocols[i].handler.on_outgoing(socket_addr, peer_id) {
                Some(c) => out.push(c),
                None => {},
            }
            i = i + 1;
        }
        proof {
            assert(self@.take(i as int) =~= self@);
        }
        RlpxSubProtocolHandlers { handlers: out }
    }
}

/// A set of connection handlers retained for one connection attempt, in
/// registration order.
pub struct RlpxSubProtocolHandlers<C> {
    /// The retained connection handlers.
    handlers: Vec<C>,
}

impl<C> View for RlpxSubProtocolHandlers<C> {
    type V = Seq<C>;

    closed spec fn view(&self) -> Seq<C> {
        self.handlers@
    }
}

impl<C> RlpxSubProtocolHandlers<C> {
    /// How many handlers were retained.
    pub fn len(&self) -> (r: usize)
        ensures
            r == self@.len(),
    {
        self.handlers.len()
    }

    /// Whether no handler was retained.
    pub fn is_empty(&self) -> (r: bool)
        ensures
            r == (self@.len() == 0),
    {
        self.handlers.len() == 0
    }

    /// A reference to the handler at position `i` of the retained order.
    pub fn get(&self, i: usize) -> (r: &C)
        requires
            i < self@.len(),
        ensures
            *r == self@[i as int],
    {
        &self.handlers[i]
    }

    /// Returns all retained handlers, in order, for the transport to resolve
    /// one by one.
    pub fn into_handlers(self) -> (r: Vec<C>)
        ensures
            r@ == self@,
    {
        self.handlers
    }
}

} // verus!
