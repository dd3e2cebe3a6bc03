//! The message-ID proxy: translation between a sub-protocol's own zero-based
//! message numbering and the absolute numbering shared by all capabilities on
//! one connection.
//!
//! RLPx multiplexes every capability's messages over a single connection by
//! partitioning one message-ID namespace; each capability only ever sees and
//! emits IDs in its own sub-range. The proxy is the sole point where that
//! mapping is applied, keeping sub-protocol implementations agnostic of the
//! shared numbering.

use vstd::prelude::*;
use crate::capability::{SharedCapabilities, SharedCapability};

verus! {

/// The message `msg`, whose leading byte is a message ID relative to the
/// sub-protocol's own numbering, rewritten to the absolute ID space of the
/// entry `cap`.
pub open spec fn mask_msg(cap: SharedCapability, msg: Seq<u8>) -> Seq<u8> {
    msg.update(0, (cap.offset + msg[0]) as u8)
}

/// The message `msg`, whose leading byte is an absolute message ID in the
/// range of the entry `cap`, rewritten to the sub-protocol's own zero-based
/// numbering.
pub open spec fn unmask_msg(cap: SharedCapability, msg: Seq<u8>) -> Seq<u8> {
    msg.update(0, (msg[0] - cap.offset) as u8)
}

/// Masking a relative in-range message ID lands in the entry's assigned
/// absolute range, and unmasking gives the original message back.
pub proof fn lemma_mask_unmask_round_trip(cap: SharedCapability, msg: Seq<u8>)
    requires
        cap.wf(),
        msg.len() > 0,
        msg[0] < cap.messages,
    ensures
        cap.spec_contains_absolute(mask_msg(cap, msg)[0]),
        unmask_msg(cap, mask_msg(cap, msg)) == msg,
{
    assert(unmask_msg(cap, mask_msg(cap, msg)) =~= msg);
}

/// Masking is injective across the whole record: no two distinct
/// (entry, relative-ID) pairs of a well-formed record mask to the same
/// absolute message ID.
pub proof fn lemma_masking_injective(
    caps: SharedCapabilities,
    i: int,
    j: int,
    ri: u8,
    rj: u8,
)
    requires
        caps.wf(),
        0 <= i < caps@.len(),
        0 <= j < caps@.len(),
        ri < caps@[i].messages,
        rj < caps@[j].messages,
        i != j || ri != rj,
    ensures
        caps@[i].offset + ri != caps@[j].offset + rj,
{
    if i < j {
        assert(crate::capability::ranges_disjoint(caps@[i], caps@[j]));
    } else if j < i {
        assert(crate::capability::ranges_disjoint(caps@[j], caps@[i]));
    }
}

/// Act as intermediary between the p2p connection and a sub-protocol
/// connection, translating message IDs.
pub trait ProxyProtocol: Sized {
    /// The negotiation-record entry this proxy is bound to.
    spec fn spec_shared_capability(&self) -> SharedCapability;

    /// Shared capability assigned to the proxy.
    fn shared_capability(&self) -> (r: &SharedCapability)
        ensures
            *r == self.spec_shared_capability(),
    ;

    /// Returns the message with masked message ID: the leading byte,
    /// relative to the sub-protocol's own numbering, is rewritten to the
    /// absolute ID space by adding the capability's assigned offset.
    ///
    /// Masking is a pure arithmetic transform; an out-of-range relative ID is
    /// a programming error in the sub-protocol and is excluded here.
    fn relative_mask_msg_id(&self, msg: Vec<u8>) -> (r: Vec<u8>)
        requires
            self.spec_shared_capability().wf(),
            msg@.len() > 0,
            msg@[0] < self.spec_shared_capability().messages,
        ensures
            r@ == mask_msg(self.spec_shared_capability(), msg@),
    ;
}

/// The per-capability framed sub-stream of the multiplexed connection, as
/// this layer sees it: the negotiation-record entry the stream is bound to.
/// Byte transport and framing belong to the transport layer underneath.
#[derive(Debug, PartialEq, Eq, Hash)]
pub struct ProtocolStream {
    /// The negotiation-record entry of the capability this stream carries.
    pub cap: SharedCapability,
}

impl ProtocolStream {
    pub fn new(cap: SharedCapability) -> (r: ProtocolStream)
        ensures
            r == (ProtocolStream { cap }),
    {
        ProtocolStream { cap }
    }

    /// Returns the message with unmasked message ID: the leading byte, an
    /// absolute ID in this stream's assigned range, is rewritten to the
    /// sub-protocol's own zero-based numbering.
    pub fn unmask_msg_id(&self, msg: Vec<u8>) -> (r: Vec<u8>)
        requires
            self.cap.wf(),
            msg@.len() > 0,
            self.cap.spec_contains_absolute(msg@[0]),
        ensures
            r@ == unmask_msg(self.cap, msg@),
    {
        let mut m = msg;
        let id = m[0];
        m[0] = id - self.cap.offset;
        m
    }

    /// Whether a message whose leading byte is the absolute ID `id` belongs
    /// on this stream. A message outside the assigned range must not be
    /// delivered to this capability's connection.
    pub fn accepts_msg_id(&self, id: u8) -> (r: bool)
        ensures
            r == self.cap.spec_contains_absolute(id),
    {
        self.cap.contains_absolute(id)
    }
}

impl Clone for ProtocolStream {
    fn clone(&self) -> (r: Self)
        ensures
            r == *self,
    {
        ProtocolStream { cap: self.cap.clone() }
    }
}

impl ProxyProtocol for ProtocolStream {
    open spec fn spec_shared_capability(&self) -> SharedCapability {
        self.cap
    }

    fn shared_capability(&self) -> (r: &SharedCapability) {
        &self.cap
    }

    fn relative_mask_msg_id(&self, msg: Vec<u8>) -> (r: Vec<u8>) {
        let mut m = msg;
        let id = m[0];
        m[0] = id + self.cap.offset;
        m
    }
}

} // verus!
