//! Capability descriptors and the capability negotiation record.
//!
//! A capability is a named, versioned application-level sub-protocol. After
//! the handshake the transport knows which capabilities both peers support
//! and assigns each of them a contiguous range of the one-byte message-ID
//! space; the resulting table is the capability negotiation record, read-only
//! for the rest of the session.

use vstd::prelude::*;
use vstd::seq_lib::*;

verus! {

/// Number of message IDs reserved for the base p2p protocol itself; shared
/// capabilities are assigned ranges strictly above this prefix.
pub const RESERVED_MESSAGE_IDS: u8 = 16;

/// Identifies a capability by name and version. Immutable once constructed;
/// used both to announce support during the handshake and to look up the
/// assigned message-ID range in the negotiation record.
#[derive(Debug, PartialEq, Eq, Hash)]
pub struct Capability {
    /// The name of the sub-protocol, e.g. `"eth"`.
    pub name: String,
    /// The version of the sub-protocol.
    pub version: usize,
}

impl Capability {
    /// Two descriptors denote the same capability when both the name and the
    /// version agree.
    pub open spec fn same(self, other: Capability) -> bool {
        self.name@ == other.name@ && self.version == other.version
    }

    pub fn new(name: String, version: usize) -> (r: Capability)
        ensures
            r == (Capability { name, version }),
    {
        Capability { name, version }
    }

    /// Whether this descriptor denotes the same capability as `other`.
    pub fn matches(&self, other: &Capability) -> (r: bool)
        ensures
            r == self.same(*other),
    {
        self.version == other.version && self.name == other.name
    }
}

impl Clone for Capability {
    fn clone(&self) -> (r: Self)
        ensures
            r == *self,
    {
        Capability { name: self.name.clone(), version: self.version }
    }
}

/// A capability together with the number of message IDs its wire protocol
/// uses: what a sub-protocol announces during the handshake so that the
/// transport can assign it an ID range.
#[derive(Debug, PartialEq, Eq, Hash)]
pub struct Protocol {
    /// The capability being announced.
    pub cap: Capability,
    /// How many message IDs the sub-protocol uses: the length of the range
    /// it asks for.
    pub messages: u8,
}

impl Protocol {
    /// A sub-protocol uses at least one message ID.
    pub open spec fn wf(self) -> bool {
        1 <= self.messages
    }

    pub fn new(cap: Capability, messages: u8) -> (r: Protocol)
        ensures
            r == (Protocol { cap, messages }),
    {
        Protocol { cap, messages }
    }
}

impl Clone for Protocol {
    fn clone(&self) -> (r: Self)
        ensures
            r == *self,
    {
        Protocol { cap: self.cap.clone(), messages: self.messages }
    }
}

/// One entry of the capability negotiation record: a capability both peers
/// support, with its assigned contiguous absolute message-ID range
/// `[offset, offset + messages)`.
#[derive(Debug, PartialEq, Eq, Hash)]
pub struct SharedCapability {
    /// The capability this entry belongs to.
    pub cap: Capability,
    /// Base of the assigned absolute message-ID range.
    pub offset: u8,
    /// Length of the assigned message-ID range.
    pub messages: u8,
}

impl SharedCapability {
    /// The assigned range lies above the reserved prefix and fits the
    /// one-byte message-ID space.
    pub open spec fn wf(self) -> bool {
        &&& RESERVED_MESSAGE_IDS <= self.offset
        &&& 1 <= self.messages
        &&& self.offset + self.messages <= 256
    }

    /// Whether an absolute message ID falls in this entry's assigned range.
    pub open spec fn spec_contains_absolute(self, id: u8) -> bool {
        self.offset <= id < self.offset + self.messages
    }

    /// Whether an absolute message ID falls in this entry's assigned range.
    pub fn contains_absolute(&self, id: u8) -> (r: bool)
        ensures
            r == self.spec_contains_absolute(id),
    {
        self.offset <= id && (id as usize) < (self.offset as usize) + (self.messages as usize)
    }
}

impl Clone for SharedCapability {
    fn clone(&self) -> (r: Self)
        ensures
            r == *self,
    {
        SharedCapability { cap: self.cap.clone(), offset: self.offset, messages: self.messages }
    }
}

/// The absolute message-ID ranges of two entries do not intersect.
pub open spec fn ranges_disjoint(a: SharedCapability, b: SharedCapability) -> bool {
    a.offset + a.messages <= b.offset || b.offset + b.messages <= a.offset
}

/// The first entry of `s` assigned to the capability `cap`, if any.
pub open spec fn find_entry(s: Seq<SharedCapability>, cap: Capability) -> Option<SharedCapability>
    decreases s.len(),
{
    if s.len() == 0 {
        None
    } else if s[0].cap.same(cap) {
        Some(s[0])
    } else {
        find_entry(s.skip(1), cap)
    }
}

/// A found entry is one of `s`'s entries and is assigned to the capability
/// that was looked up.
pub proof fn lemma_find_entry_found(s: Seq<SharedCapability>, cap: Capability)
    requires
        find_entry(s, cap) is Some,
    ensures
        exists|i: int| 0 <= i < s.len() && s[i] == find_entry(s, cap)->Some_0,
        find_entry(s, cap)->Some_0.cap.same(cap),
    decreases s.len(),
{
    if s[0].cap.same(cap) {
        assert(s[0] == find_entry(s, cap)->Some_0);
    } else {
        lemma_find_entry_found(s.skip(1), cap);
        let j = choose|j: int|
            0 <= j < s.skip(1).len() && s.skip(1)[j] == find_entry(s.skip(1), cap)->Some_0;
        assert(s[j + 1] == find_entry(s, cap)->Some_0);
    }
}

/// The combined length of the message-ID ranges announced by `ps`.
pub open spec fn total_messages(ps: Seq<Protocol>) -> int
    decreases ps.len(),
{
    if ps.len() == 0 {
        0
    } else {
        total_messages(ps.drop_last()) + ps.last().messages
    }
}

pub proof fn lemma_total_messages_nonneg(ps: Seq<Protocol>)
    ensures
        total_messages(ps) >= 0,
    decreases ps.len(),
{
    if ps.len() > 0 {
        lemma_total_messages_nonneg(ps.drop_last());
    }
}

pub proof fn lemma_total_messages_monotone(ps: Seq<Protocol>, a: int, b: int)
    requires
        0 <= a <= b <= ps.len(),
    ensures
        total_messages(ps.take(a)) <= total_messages(ps.take(b)),
    decreases b - a,
{
    if a < b {
        lemma_total_messages_monotone(ps, a, b - 1);
        assert(ps.take(b).drop_last() =~= ps.take(b - 1));
        assert(total_messages(ps.take(b)) == total_messages(ps.take(b - 1)) + ps[b - 1].messages);
    }
}

/// The capability negotiation record: the ordered table of capabilities both
/// peers support, each with its assigned absolute message-ID range. Computed
/// once per session after the handshake; read-only afterwards, so it is safe
/// to consult from any number of simultaneous negotiations.
#[derive(Debug, PartialEq, Eq, Hash)]
pub struct SharedCapabilities {
    caps: Vec<SharedCapability>,
}

impl View for SharedCapabilities {
    type V = Seq<SharedCapability>;

    closed spec fn view(&self) -> Seq<SharedCapability> {
        self.caps@
    }
}

impl SharedCapabilities {
    /// Every entry is well formed and no two entries' ranges intersect, so
    /// each absolute message ID belongs to at most one capability.
    pub open spec fn wf(self) -> bool {
        &&& forall|i: int| 0 <= i < self@.len() ==> (#[trigger] self@[i]).wf()
        &&& forall|i: int, j: int|
            0 <= i < j < self@.len() ==> #[trigger] ranges_disjoint(self@[i], self@[j])
    }

    /// The record's entry for `cap`, if the peers share that capability.
    pub open spec fn spec_shared_capability(self, cap: Capability) -> Option<SharedCapability> {
        find_entry(self@, cap)
    }

    /// Whether the peers share the capability `cap`.
    pub open spec fn spec_contains(self, cap: Capability) -> bool {
        find_entry(self@, cap) is Some
    }

    /// Builds the record from the protocols both peers agreed on, assigning
    /// each a contiguous message-ID range directly above the previous one,
    /// starting right after the reserved prefix. Returns `None` exactly when
    /// some protocol announces no messages at all or the combined ranges
    /// would not fit the one-byte message-ID space.
    pub fn try_new(protocols: Vec<Protocol>) -> (r: Option<SharedCapabilities>)
        ensures
            match r {
                Some(caps) => {
                    &&& caps.wf()
                    &&& RESERVED_MESSAGE_IDS + total_messages(protocols@) <= 256
                    &&& caps@.len() == protocols@.len()
                    &&& forall|i: int|
                        0 <= i < protocols@.len() ==> {
                            &&& (#[trigger] caps@[i]).cap == protocols@[i].cap
                            &&& caps@[i].messages == protocols@[i].messages
                            &&& caps@[i].offset == RESERVED_MESSAGE_IDS + total_messages(
                                protocols@.take(i),
                            )
                        }
                },
                None => RESERVED_MESSAGE_IDS + total_messages(protocols@) > 256 || exists|i: int|
                    0 <= i < protocols@.len() && !(#[trigger] protocols@[i]).wf(),
            },
    {
        let mut caps: Vec<SharedCapability> = Vec::new();
        let mut offset: usize = RESERVED_MESSAGE_IDS as usize;
        let mut i: usize = 0;
        while i < protocols.len()
            invariant
                i <= protocols@.len(),
                offset == RESERVED_MESSAGE_IDS + total_messages(protocols@.take(i as int)),
                offset <= 256,
                caps@.len() == i,
                forall|k: int| 0 <= k < i ==> (#[trigger] protocols@[k]).wf(),
                forall|k: int|
                    0 <= k < i ==> {
                        &&& (#[trigger] caps@[k]).cap == protocols@[k].cap
                        &&& caps@[k].messages == protocols@[k].messages
                        &&& caps@[k].offset == RESERVED_MESSAGE_IDS + total_messages(
                            protocols@.take(k),
                        )
                    },
            decreases protocols@.len() - i,
        {
            let p = &protocols[i];
            proof {
                assert(protocols@.take(i + 1).drop_last() =~= protocols@.take(i as int));
                assert(protocols@.take(i + 1).last() == protocols@[i as int]);
            }
            if p.messages == 0 {
                return None;
            }
            if 256 - offset < p.messages as usize {
                proof {
                    lemma_total_messages_monotone(protocols@, i + 1, protocols@.len() as int);
                    assert(protocols@.take(protocols@.len() as int) =~= protocols@);
                }
                return None;
            }
            caps.push(SharedCapability { cap: p.cap.clone(), offset: offset as u8, messages: p.messages });
            offset = offset + p.messages as usize;
            i = i + 1;
        }
        proof {
            assert(protocols@.take(i as int) =~= protocols@);
            assert forall|a: int, b: int| 0 <= a < b < caps@.len() implies #[trigger] ranges_disjoint(
                caps@[a],
                caps@[b],
            ) by {
                assert(protocols@.take(a + 1).drop_last() =~= protocols@.take(a));
                assert(protocols@.take(a + 1).last() == protocols@[a]);
                lemma_total_messages_monotone(protocols@, a + 1, b);
            }
            assert forall|a: int| 0 <= a < caps@.len() implies (#[trigger] caps@[a]).wf() by {
                assert(protocols@.take(a + 1).drop_last() =~= protocols@.take(a));
                assert(protocols@.take(a + 1).last() == protocols@[a]);
                lemma_total_messages_nonneg(protocols@.take(a));
                lemma_total_messages_monotone(protocols@, a + 1, protocols@.len() as int);
            }
        }
        Some(SharedCapabilities { caps })
    }

    /// The entry found for a shared capability is one of the record's
    /// entries and is assigned to that capability; in a well-formed record it
    /// is itself well formed, so masking on it stays within the one-byte
    /// message-ID space.
    pub proof fn lemma_shared_capability_found(self, cap: Capability)
        requires
            self.spec_shared_capability(cap) is Some,
        ensures
            self.spec_shared_capability(cap)->Some_0.cap.same(cap),
            self.wf() ==> self.spec_shared_capability(cap)->Some_0.wf(),
    {
        lemma_find_entry_found(self@, cap);
        let i = choose|i: int|
            0 <= i < self@.len() && self@[i] == self.spec_shared_capability(cap)->Some_0;
        if self.wf() {
            assert(self@[i].wf());
        }
    }

    /// The entry assigned to `cap`, if the peers share that capability.
    pub fn shared_capability(&self, cap: &Capability) -> (r: Option<&SharedCapability>)
        ensures
            match r {
                Some(e) => self.spec_shared_capability(*cap) == Some(*e),
                None => self.spec_shared_capability(*cap) is None,
            },
    {
        let mut i: usize = 0;
        proof {
            assert(self@.skip(0) =~= self@);
        }
        while i < self.caps.len()
            invariant
                i <= self@.len(),
                find_entry(self@, *cap) == find_entry(self@.skip(i as int), *cap),
            decreases self@.len() - i,
        {
            proof {
                assert(self@.skip(i as int).skip(1) =~= self@.skip(i + 1));
                assert(self@.skip(i as int)[0] == self@[i as int]);
            }
            let e = &self.caps[i];
            if e.cap.matches(cap) {
                return Some(e);
            }
            i = i + 1;
        }
        proof {
            assert(self@.skip(i as int) =~= Seq::<SharedCapability>::empty());
        }
        None
    }

    /// Whether the peers share the capability `cap`.
    pub fn contains(&self, cap: &Capability) -> (r: bool)
        ensures
            r == self.spec_contains(*cap),
    {
        self.shared_capability(cap).is_some()
    }

    /// The number of shared capabilities.
    pub fn len(&self) -> (r: usize)
        ensures
            r == self@.len(),
    {
        self.caps.len()
    }

    /// The entry at position `i` of the record.
    pub fn get(&self, i: usize) -> (r: &SharedCapability)
        requires
            i < self@.len(),
        ensures
            *r == self@[i as int],
    {
        &self.caps[i]
    }
}

} // verus!
