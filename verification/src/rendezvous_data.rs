//! Contains [`RendezvousData`].

use vstd::prelude::*;
use crate::protocol::owned_slot;
use crate::protocol::lemma_owned_slot_bound;
use crate::protocol::lemma_owned_slot_alternates;
use crate::protocol::lemma_owned_slots_disjoint;
use crate::rendezvous::Rendezvous;
use crate::rendezvous::SharedCounters;

verus! {

/// One side of a data-exchange barrier between a pair of threads.
///
/// Each handle performs the same handshake as [`Rendezvous`] and additionally
/// tracks which of the pair's two storage slots currently belongs to its
/// side. [`RendezvousData::swap`] completes one handshake and then exchanges
/// slot ownership, returning the index of the newly owned slot; the slots
/// themselves are storage cells kept beside the counters by the embedding
/// layer, which turns the returned index into exclusive access to that cell.
/// The accounting proved here is what makes that access exclusive: after any
/// number of matched rounds the two handles never own the same index
/// ([`lemma_pair_slots_disjoint`]), and ownership of an index is given up at
/// the very call that acquires the other one.
#[non_exhaustive]
pub struct RendezvousData {
    /// The handshake, shared with the execution-only barrier.
    rv: Rendezvous,
    /// Index of the slot this side currently owns: 0 or 1.
    my_slot: usize,
}

impl RendezvousData {
    /// Completed swap rounds of this side.
    pub closed spec fn rounds(self) -> nat {
        self.rv.rounds()
    }

    /// Whether this side was the first of its pair.
    pub closed spec fn is_first(self) -> bool {
        self.rv.is_first()
    }

    /// The shared block this handle is linked through.
    pub closed spec fn block(self) -> SharedCounters {
        self.rv.block()
    }

    /// Whether this side has entered its next round and its poll is still
    /// outstanding.
    pub closed spec fn entered(self) -> bool {
        self.rv.entered()
    }

    /// Index of the slot this side currently owns.
    pub closed spec fn my_slot(self) -> nat {
        self.my_slot as nat
    }

    /// The two handles belong to one pair.
    pub open spec fn linked(self, other: RendezvousData) -> bool {
        self.block() == other.block() && self.is_first() != other.is_first()
    }

    /// Well-formedness: the handshake state is well formed and the owned
    /// slot is the one the ownership discipline assigns to this side for its
    /// round count.
    pub closed spec fn wf(self) -> bool {
        self.rv.wf() && self.my_slot as nat == owned_slot(self.rv.is_first(), self.rv.rounds())
    }

    /// A well-formed handle owns exactly the slot the discipline assigns.
    pub proof fn lemma_my_slot_is_owned(self)
        requires
            self.wf(),
        ensures
            self.my_slot() == owned_slot(self.is_first(), self.rounds()),
            self.my_slot() == 0 || self.my_slot() == 1,
    {
        lemma_owned_slot_bound(self.is_first(), self.rounds());
    }

    /// Creates a linked pair of [`RendezvousData`] handles: one shared
    /// block, both sides at round zero, the first side owning slot 0 and the
    /// second slot 1. The embedding layer seeds slot 0 with the first side's
    /// initial value and slot 1 with the second side's.
    pub fn new() -> (pair: (RendezvousData, RendezvousData))
        ensures
            pair.0.wf() && pair.1.wf(),
            pair.0.rounds() == 0 && pair.1.rounds() == 0,
            pair.0.is_first() && !pair.1.is_first(),
            pair.0.linked(pair.1) && pair.1.linked(pair.0),
            pair.0.my_slot() == 0 && pair.1.my_slot() == 1,
            !pair.0.entered() && !pair.1.entered(),
    {
        let (rv_first, rv_second) = Rendezvous::new();
        (
            RendezvousData { rv: rv_first, my_slot: 0 },
            RendezvousData { rv: rv_second, my_slot: 1 },
        )
    }

    /// One non-blocking step of a swap: one step of the handshake, and on
    /// completion the exchange of slot ownership. Returns the index of the
    /// newly owned slot when the round completed, and `None` when the peer
    /// has not arrived yet, leaving the round count and owned slot unchanged.
    pub fn try_swap(&mut self) -> (r: Option<usize>)
        requires
            old(self).wf(),
        ensures
            final(self).wf(),
            final(self).is_first() == old(self).is_first(),
            final(self).block() == old(self).block(),
            r matches Some(i) ==> final(self).rounds() == old(self).rounds() + 1
                && i as nat == final(self).my_slot()
                && i as nat == owned_slot(old(self).is_first(), old(self).rounds() + 1)
                && final(self).my_slot() != old(self).my_slot()
                && (i == 0 || i == 1)
                && !final(self).entered(),
            r is None ==> final(self).rounds() == old(self).rounds()
                && final(self).my_slot() == old(self).my_slot()
                && final(self).entered(),
    {
        if self.rv.try_wait() {
            Some(self.exchange_slots())
        } else {
            None
        }
    }

    /// Synchronizes with the other thread as [`Rendezvous::wait`] does, then
    /// exchanges slot ownership, returning the index of the newly owned
    /// slot. The handshake guarantees the peer has given up that slot before
    /// the index is handed out, so the embedding layer may take exclusive
    /// access to the slot until this handle's next swap. `None` reports an
    /// exhausted spin budget, with this side's state unchanged.
    #[inline]
    pub fn swap(&mut self) -> (r: Option<usize>)
        requires
            old(self).wf(),
        ensures
            final(self).wf(),
            final(self).is_first() == old(self).is_first(),
            final(self).block() == old(self).block(),
            r matches Some(i) ==> final(self).rounds() == old(self).rounds() + 1
                && i as nat == final(self).my_slot()
                && i as nat == owned_slot(old(self).is_first(), old(self).rounds() + 1)
                && final(self).my_slot() != old(self).my_slot()
                && (i == 0 || i == 1)
                && !final(self).entered(),
            r is None ==> final(self).rounds() == old(self).rounds()
                && final(self).my_slot() == old(self).my_slot()
                && final(self).entered(),
    {
        self.swap_inline()
    }

    /// Always-inlined version of [`RendezvousData::swap`].
    #[allow(clippy::inline_always)]
    #[inline(always)]
    pub fn swap_inline(&mut self) -> (r: Option<usize>)
        requires
            old(self).wf(),
        ensures
            final(self).wf(),
            final(self).is_first() == old(self).is_first(),
            final(self).block() == old(self).block(),
            r matches Some(i) ==> final(self).rounds() == old(self).rounds() + 1
                && i as nat == final(self).my_slot()
                && i as nat == owned_slot(old(self).is_first(), old(self).rounds() + 1)
                && final(self).my_slot() != old(self).my_slot()
                && (i == 0 || i == 1)
                && !final(self).entered(),
            r is None ==> final(self).rounds() == old(self).rounds()
                && final(self).my_slot() == old(self).my_slot()
                && final(self).entered(),
    {
        if self.rv.wait_inline() {
            Some(self.exchange_slots())
        } else {
            None
        }
    }

    /// Exchanges which slot is this side's own, after a completed handshake
    /// has moved the round count forward by one.
    fn exchange_slots(&mut self) -> (i: usize)
        requires
            old(self).rv.wf(),
            old(self).my_slot as nat == owned_slot(
                old(self).rv.is_first(),
                (old(self).rv.rounds() - 1) as nat,
            ),
            old(self).rv.rounds() >= 1,
        ensures
            final(self).wf(),
            final(self).rv == old(self).rv,
            i == final(self).my_slot,
            final(self).my_slot != old(self).my_slot,
            i == 0 || i == 1,
    {
        proof {
            let k = (self.rv.rounds() - 1) as nat;
            lemma_owned_slot_bound(self.rv.is_first(), k);
            lemma_owned_slot_bound(self.rv.is_first(), self.rv.rounds());
            lemma_owned_slot_alternates(self.rv.is_first(), k);
        }
        self.my_slot = if self.my_slot == 0 {
            1
        } else {
            0
        };
        self.my_slot
    }
}

/// *Exclusive mutable access* (pair law): two linked, well-formed handles
/// that have completed equally many swap rounds own different slots, so the
/// storage cells their indices select can never alias.
pub proof fn lemma_pair_slots_disjoint(a: RendezvousData, b: RendezvousData)
    requires
        a.wf(),
        b.wf(),
        a.linked(b),
        a.rounds() == b.rounds(),
    ensures
        a.my_slot() != b.my_slot(),
{
    if a.is_first() {
        lemma_owned_slots_disjoint(a.rounds());
    } else {
        lemma_owned_slots_disjoint(b.rounds());
    }
}

} // verus!
