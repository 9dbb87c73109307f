//! Contains [`Rendezvous`].

use vstd::prelude::*;
use std::sync::Arc;
use core::sync::atomic::AtomicUsize;
use core::sync::atomic::Ordering;
use crate::padded::Padded;
use crate::protocol::gen_modulus;
use vstd::arithmetic::div_mod::lemma_add_mod_noop;
use vstd::arithmetic::div_mod::lemma_small_mod;

verus! {

/// The shared allocation of one barrier pair: two progress counters, each in
/// a padded cell of its own. Each counter is written by one designated side
/// and read only by the other.
pub struct SharedCounters {
    /// Counter written by the side created first.
    c_first: Padded<AtomicUsize>,
    /// Counter written by the side created second.
    c_second: Padded<AtomicUsize>,
}

/// Relies on `core::hint::spin_loop`: a processor-level pause hint with no
/// observable effect on program state.
#[verifier::external_body]
fn spin_hint() {
    core::hint::spin_loop();
}

/// Relies on `std::sync::Arc::clone`: the returned handle refers to the same
/// shared value as the argument.
#[verifier::external_body]
fn share<T>(a: &Arc<T>) -> (r: Arc<T>)
    ensures
        r == *a,
{
    Arc::clone(a)
}

/// The successor of a generation value: the round count advances by one and
/// the machine word wraps at `gen_modulus()`.
fn wrapping_inc(g: usize) -> (r: usize)
    ensures
        r as nat == (g as nat + 1) % gen_modulus(),
{
    proof {
        if g < usize::MAX {
            lemma_small_mod(g as nat + 1, gen_modulus());
        }
    }
    if g == usize::MAX {
        assert(gen_modulus() as int % gen_modulus() as int == 0) by {
            vstd::arithmetic::div_mod::lemma_mod_self_0(gen_modulus() as int);
        }
        0
    } else {
        g + 1
    }
}

/// Decision kernel of the poll: the handshake is complete exactly when the
/// value observed in the peer's counter differs from this side's remembered
/// pre-increment generation. Both counters start equal and each moves only by
/// one per round, only by its owner, so inequality says the peer has moved
/// past where this side last observed it (`crate::protocol::exit_test`).
pub fn handshake_complete(observed: usize, generation: usize) -> (done: bool)
    ensures
        done == (observed != generation),
{
    observed != generation
}

/// One side of an execution barrier between a pair of threads.
///
/// A pair is created linked by [`Rendezvous::new`]; each handle is then moved
/// to its own thread, and the two threads call [`Rendezvous::wait`] in
/// matched rounds.
#[non_exhaustive]
pub struct Rendezvous {
    /// Thread-local generation: the wrapped count of completed handshakes.
    generation: usize,
    /// Whether `generation + 1` is already published and polling is underway.
    announced: bool,
    /// Whether this side writes the first counter of the shared block.
    first: bool,
    /// Jointly owned shared block; released with the last handle.
    shared: Arc<SharedCounters>,
    /// Unwrapped count of completed handshakes.
    rounds: Ghost<nat>,
}

impl Rendezvous {
    /// Completed handshakes of this side.
    pub closed spec fn rounds(self) -> nat {
        self.rounds@
    }

    /// Whether this side was the first of its pair.
    pub closed spec fn is_first(self) -> bool {
        self.first
    }

    /// The generation value this side currently holds.
    pub closed spec fn wrapped_generation(self) -> nat {
        self.generation as nat
    }

    /// Whether this side has entered its next round: it has published
    /// `generation + 1` to its counter and the poll is still outstanding.
    pub closed spec fn entered(self) -> bool {
        self.announced
    }

    /// The shared block this handle is linked through.
    pub closed spec fn block(self) -> SharedCounters {
        *self.shared
    }

    /// The two handles belong to one pair: they share one block and write
    /// opposite counters of it.
    pub open spec fn linked(self, other: Rendezvous) -> bool {
        self.block() == other.block() && self.is_first() != other.is_first()
    }

    /// Well-formedness: the generation word is the round count, wrapped.
    pub closed spec fn wf(self) -> bool {
        self.generation as nat == self.rounds@ % gen_modulus()
    }

    /// The generation a well-formed handle holds is exactly its round count
    /// reduced modulo the machine-word limit.
    pub proof fn lemma_generation_is_wrapped_rounds(self)
        requires
            self.wf(),
        ensures
            self.wrapped_generation() == self.rounds() % gen_modulus(),
    {
    }

    /// Creates a linked pair of [`Rendezvous`]: one shared block, both sides
    /// at round zero with nothing announced.
    pub fn new() -> (pair: (Rendezvous, Rendezvous))
        ensures
            pair.0.wf() && pair.1.wf(),
            pair.0.rounds() == 0 && pair.1.rounds() == 0,
            pair.0.is_first() && !pair.1.is_first(),
            pair.0.linked(pair.1) && pair.1.linked(pair.0),
            !pair.0.entered() && !pair.1.entered(),
    {
        proof {
            lemma_small_mod(0, gen_modulus());
        }
        let shared = Arc::new(
            SharedCounters {
                c_first: Padded::new(AtomicUsize::new(0)),
                c_second: Padded::new(AtomicUsize::new(0)),
            },
        );
        let shared_other = share(&shared);
        (
            Rendezvous {
                generation: 0,
                announced: false,
                first: true,
                shared,
                rounds: Ghost(0),
            },
            Rendezvous {
                generation: 0,
                announced: false,
                first: false,
                shared: shared_other,
                rounds: Ghost(0),
            },
        )
    }

    /// One non-blocking step of the handshake. On the first call of a round
    /// it publishes `generation + 1` to this side's counter with release
    /// ordering; every call then polls the peer's counter once with acquire
    /// ordering. Returns `true` exactly when the handshake completed, which
    /// advances this side by one round.
    pub fn try_wait(&mut self) -> (done: bool)
        requires
            old(self).wf(),
        ensures
            final(self).wf(),
            final(self).is_first() == old(self).is_first(),
            final(self).block() == old(self).block(),
            done ==> final(self).rounds() == old(self).rounds() + 1 && !final(self).entered(),
            !done ==> final(self).rounds() == old(self).rounds()
                && final(self).wrapped_generation() == old(self).wrapped_generation()
                && final(self).entered(),
    {
        if !self.announced {
            let next = wrapping_inc(self.generation);
            let mine = if self.first {
                &self.shared.c_first.i
            } else {
                &self.shared.c_second.i
            };
            mine.store(next, Ordering::Release);
            self.announced = true;
        }
        let theirs = if self.first {
            &self.shared.c_second.i
        } else {
            &self.shared.c_first.i
        };
        let observed = theirs.load(Ordering::Acquire);
        if handshake_complete(observed, self.generation) {
            proof {
                lemma_add_mod_noop(self.rounds@ as int, 1, gen_modulus() as int);
                lemma_small_mod(1, gen_modulus());
            }
            self.generation = wrapping_inc(self.generation);
            self.rounds = Ghost(self.rounds@ + 1);
            self.announced = false;
            true
        } else {
            false
        }
    }

    /// Synchronizes execution with the other thread: publishes this side's
    /// next round, then busy-polls the peer's counter, with a processor spin
    /// hint on each iteration, until the peer has entered the matching round.
    /// As a side effect of the release/acquire pairing, memory written by the
    /// peer before its matching call is visible after this call returns.
    ///
    /// Returns `true` when the handshake completed, advancing this side by
    /// one round. The poll is bounded by a spin budget far beyond any
    /// practical run; `false` reports that the budget was exhausted with the
    /// peer never arriving, in which case this side's round count and
    /// generation are unchanged and the call may simply be repeated.
    #[inline]
    pub fn wait(&mut self) -> (done: bool)
        requires
            old(self).wf(),
        ensures
            final(self).wf(),
            final(self).is_first() == old(self).is_first(),
            final(self).block() == old(self).block(),
            done ==> final(self).rounds() == old(self).rounds() + 1 && !final(self).entered(),
            !done ==> final(self).rounds() == old(self).rounds()
                && final(self).wrapped_generation() == old(self).wrapped_generation()
                && final(self).entered(),
    {
        self.wait_inline()
    }

    /// Always-inlined version of [`Rendezvous::wait`].
    #[allow(clippy::inline_always)]
    #[inline(always)]
    #[verifier::loop_isolation(false)]
    pub fn wait_inline(&mut self) -> (done: bool)
        requires
            old(self).wf(),
        ensures
            final(self).wf(),
            final(self).is_first() == old(self).is_first(),
            final(self).block() == old(self).block(),
            done ==> final(self).rounds() == old(self).rounds() + 1 && !final(self).entered(),
            !done ==> final(self).rounds() == old(self).rounds()
                && final(self).wrapped_generation() == old(self).wrapped_generation()
                && final(self).entered(),
    {
        let mut fuel: u64 = u64::MAX;
        while 0 < fuel
            invariant
                self.wf(),
                self.is_first() == old(self).is_first(),
                self.block() == old(self).block(),
                self.rounds() == old(self).rounds(),
                self.wrapped_generation() == old(self).wrapped_generation(),
                fuel < u64::MAX ==> self.entered(),
            decreases fuel,
        {
            if self.try_wait() {
                return true;
            }
            spin_hint();
            fuel = fuel - 1;
        }
        false
    }
}

} // verus!
