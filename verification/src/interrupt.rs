//! The kernel-side "lower half" of the external interrupt channel.
//!
//! Interrupt records arrive from outside the kernel process; the harness
//! drains its receiving channel and pushes each record here.  The lower half
//! keeps the pending interrupts as a priority queue ordered by source id:
//! a higher source id preempts, so every pop yields the maximum source id
//! still pending.  The queue has no capacity cap.

use vstd::prelude::*;
use vstd::bytes::*;
use vstd::multiset::Multiset;

use crate::EmulationError;

verus! {

broadcast use vstd::seq_lib::group_to_multiset_ensures;

/// Wire size of one `Interrupt` record: a single 32-bit word.
pub const INTERRUPT_WIRE_BYTES: usize = 4;

/// A 32-bit interrupt source identifier, totally ordered by value.
#[derive(Debug, Copy, Clone, PartialEq, Eq, Structural)]
pub struct Interrupt {
    pub source: u32,
}

/// The encoding of an `Interrupt` record: one little-endian 32-bit word.
pub open spec fn spec_encode_interrupt(i: Interrupt) -> Seq<u8> {
    spec_u32_to_le_bytes(i.source)
}

/// The `Interrupt` record read from a byte sequence of exactly
/// `INTERRUPT_WIRE_BYTES`.
pub open spec fn spec_decode_interrupt(b: Seq<u8>) -> Interrupt
    recommends
        b.len() == INTERRUPT_WIRE_BYTES,
{
    Interrupt { source: spec_u32_from_le_bytes(b) }
}

impl Interrupt {
    pub fn new(source: u32) -> (r: Interrupt)
        ensures
            r.source == source,
    {
        Interrupt { source }
    }

    /// The interrupt's source id.
    pub fn source(&self) -> (r: u32)
        ensures
            r == self.source,
    {
        self.source
    }

    /// Serialize this record as one datagram payload.
    pub fn encode(&self) -> (r: Vec<u8>)
        ensures
            r@ == spec_encode_interrupt(*self),
            r@.len() == INTERRUPT_WIRE_BYTES,
    {
        proof { lemma_auto_spec_u32_to_from_le_bytes(); }
        u32_to_le_bytes(self.source)
    }

    /// The validated cast from one datagram's bytes: succeeds exactly when
    /// the payload has the record's size.
    pub fn decode(bytes: &[u8]) -> (r: Result<Interrupt, EmulationError>)
        ensures
            bytes@.len() == INTERRUPT_WIRE_BYTES <==> r is Ok,
            r matches Ok(i) ==> i == spec_decode_interrupt(bytes@),
            r matches Err(e) ==> e matches EmulationError::Custom(_),
    {
        if bytes.len() != INTERRUPT_WIRE_BYTES {
            return Err(EmulationError::Custom("failed to deserialize Interrupt".to_string()));
        }
        Ok(Interrupt { source: u32_from_le_bytes(bytes) })
    }
}

/// Record round trip for `Interrupt`: decoding an encoding is the identity,
/// and encoding the decoding of any byte sequence of the record's size gives
/// those bytes back.
pub proof fn lemma_interrupt_roundtrip(i: Interrupt, b: Seq<u8>)
    ensures
        spec_decode_interrupt(spec_encode_interrupt(i)) == i,
        b.len() == INTERRUPT_WIRE_BYTES ==> spec_encode_interrupt(spec_decode_interrupt(b)) == b,
{
    lemma_auto_spec_u32_to_from_le_bytes();
    assert(spec_u32_to_le_bytes(i.source).len() == 4);
    assert(spec_decode_interrupt(spec_encode_interrupt(i)).source == i.source);
}

/// The consumer side of the interrupt channel: a max-priority queue of
/// pending interrupts, drained by the scheduler.
pub struct LowerHalf {
    pending: Vec<Interrupt>,
}

impl LowerHalf {
    /// The pending interrupts, as a bag: pops choose by maximum source id,
    /// not by arrival order.
    pub closed spec fn pending_multiset(&self) -> Multiset<Interrupt> {
        self.pending@.to_multiset()
    }

    /// How many interrupts are pending.
    pub closed spec fn pending_count(&self) -> nat {
        self.pending@.len()
    }

    pub fn new() -> (r: LowerHalf)
        ensures
            r.pending_count() == 0,
    {
        LowerHalf { pending: Vec::new() }
    }

    /// Adds one interrupt received from the upper half to the pending queue.
    pub fn push_pending(&mut self, interrupt: Interrupt)
        ensures
            final(self).pending_multiset() == old(self).pending_multiset().insert(interrupt),
            final(self).pending_count() == old(self).pending_count() + 1,
    {
        self.pending.push(interrupt);
        proof {
            assert(final(self).pending@ == old(self).pending@.push(interrupt));
        }
    }

    /// Whether any interrupt is pending.
    pub fn has_pending_interrupts(&self) -> (r: bool)
        ensures
            r == (self.pending_count() > 0),
    {
        self.pending.len() > 0
    }

    /// Pops the pending interrupt with the highest source id, or `None` when
    /// nothing is pending.  Among equal source ids, which record leaves is
    /// unspecified.
    pub fn next_pending(&mut self) -> (r: Option<Interrupt>)
        ensures
            old(self).pending_count() == 0 ==> r is None && *final(self) == *old(self),
            old(self).pending_count() > 0 ==> (r matches Some(m) && {
                &&& old(self).pending_multiset().count(m) > 0
                &&& forall|x: Interrupt|
                    old(self).pending_multiset().count(x) > 0 ==> x.source <= m.source
                &&& final(self).pending_multiset() == old(self).pending_multiset().remove(m)
                &&& final(self).pending_count() == old(self).pending_count() - 1
            }),
    {
        if self.pending.len() == 0 {
            return None;
        }
        let mut best: usize = 0;
        let mut i: usize = 1;
        while i < self.pending.len()
            invariant
                best < self.pending@.len(),
                i <= self.pending@.len(),
                forall|j: int| 0 <= j < i ==> self.pending@[j].source <= self.pending@[
                    best as int
                ].source,
            decreases self.pending@.len() - i,
        {
            if self.pending[i].source > self.pending[best].source {
                best = i;
            }
            i = i + 1;
        }
        let m = self.pending.remove(best);
        proof {
            assert(old(self).pending@.contains(m));
            assert forall|x: Interrupt| old(self).pending_multiset().count(x) > 0 implies x.source
                <= m.source by {
                assert(old(self).pending@.contains(x));
            };
        }
        Some(m)
    }
}

} // verus!
