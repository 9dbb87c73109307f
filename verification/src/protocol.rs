//! The handshake protocol and the slot-ownership discipline, as a
//! mathematical model.
//!
//! The executable handles in [`crate::rendezvous`] act for one side only and
//! cannot see the peer's private state, so the pair-level safety argument is
//! stated here over a model of the whole pair: the number of handshakes each
//! side has completed, and whether each side has announced its next round and
//! is still polling. The proofs establish the protocol's central claims: the
//! two sides are never more than one round apart, a side can leave its poll
//! only once the peer has entered the matching round, the wrapped machine-word
//! counters decide the exit test exactly as unbounded counters would, and the
//! slot indices the two sides own never collide.

use vstd::prelude::*;
use vstd::arithmetic::div_mod::lemma_small_mod;
use vstd::arithmetic::div_mod::lemma_mod_equivalence;

verus! {

/// Number of distinct values a progress counter can hold: the counters are
/// machine words and wrap around after this many increments.
pub open spec fn gen_modulus() -> nat {
    usize::MAX as nat + 1
}

/// State of one linked pair: completed handshakes per side, and whether each
/// side has published its next round and is still polling for the peer.
pub struct HandshakeState {
    /// Completed rounds of the side created first.
    pub rounds_first: nat,
    /// Completed rounds of the side created second.
    pub rounds_second: nat,
    /// The first side has stored `rounds_first + 1` into its counter and is
    /// polling the peer's counter.
    pub announced_first: bool,
    /// The second side has stored `rounds_second + 1` into its counter and is
    /// polling the peer's counter.
    pub announced_second: bool,
}

/// Completed rounds of the given side (`true` names the first side).
pub open spec fn rounds_of(s: HandshakeState, first: bool) -> nat {
    if first {
        s.rounds_first
    } else {
        s.rounds_second
    }
}

/// Whether the given side has announced its next round.
pub open spec fn announced_of(s: HandshakeState, first: bool) -> bool {
    if first {
        s.announced_first
    } else {
        s.announced_second
    }
}

/// The value currently stored in the given side's progress counter, counted
/// without wrapping: its completed rounds, plus one while an announcement is
/// outstanding. A side's counter is written by that side alone.
pub open spec fn counter_of(s: HandshakeState, first: bool) -> nat {
    rounds_of(s, first) + if announced_of(s, first) {
        1nat
    } else {
        0nat
    }
}

/// The state both sides start in: no rounds completed, nothing announced.
pub open spec fn initial_state() -> HandshakeState {
    HandshakeState {
        rounds_first: 0,
        rounds_second: 0,
        announced_first: false,
        announced_second: false,
    }
}

/// The protocol invariant: the two sides have completed equally many rounds,
/// or one side is exactly one round ahead and the trailing side has already
/// announced the round that would restore the balance.
pub open spec fn inv(s: HandshakeState) -> bool {
    ||| s.rounds_first == s.rounds_second
    ||| (s.rounds_first == s.rounds_second + 1 && s.announced_second)
    ||| (s.rounds_second == s.rounds_first + 1 && s.announced_first)
}

/// The given side announces: it stores `rounds + 1` into its own counter and
/// begins polling. Announcing is only meaningful when nothing is outstanding.
pub open spec fn announce(s: HandshakeState, first: bool) -> HandshakeState {
    if first {
        HandshakeState { announced_first: true, ..s }
    } else {
        HandshakeState { announced_second: true, ..s }
    }
}

/// The exit test of the given side's poll, on unbounded counters: the peer's
/// counter differs from this side's remembered pre-increment generation.
pub open spec fn exit_test(s: HandshakeState, first: bool) -> bool {
    counter_of(s, !first) != rounds_of(s, first)
}

/// Whether the given side may complete its outstanding handshake.
pub open spec fn can_complete(s: HandshakeState, first: bool) -> bool {
    announced_of(s, first) && exit_test(s, first)
}

/// The given side completes its handshake: one more round is done and the
/// announcement is no longer outstanding.
pub open spec fn complete(s: HandshakeState, first: bool) -> HandshakeState {
    if first {
        HandshakeState {
            rounds_first: s.rounds_first + 1,
            announced_first: false,
            ..s
        }
    } else {
        HandshakeState {
            rounds_second: s.rounds_second + 1,
            announced_second: false,
            ..s
        }
    }
}

/// The initial state satisfies the protocol invariant.
pub proof fn lemma_initial_state_inv()
    ensures
        inv(initial_state()),
{
}

/// Announcing preserves the protocol invariant.
pub proof fn lemma_announce_preserves_inv(s: HandshakeState, first: bool)
    requires
        inv(s),
    ensures
        inv(announce(s, first)),
{
}

/// Completing a handshake preserves the protocol invariant: a side whose exit
/// test passes can never move more than one round ahead of its peer.
pub proof fn lemma_complete_preserves_inv(s: HandshakeState, first: bool)
    requires
        inv(s),
        can_complete(s, first),
    ensures
        inv(complete(s, first)),
{
}

/// The two sides are never more than one round apart.
pub proof fn lemma_never_more_than_one_round_apart(s: HandshakeState)
    requires
        inv(s),
    ensures
        rounds_of(s, true) <= rounds_of(s, false) + 1,
        rounds_of(s, false) <= rounds_of(s, true) + 1,
{
}

/// A side's exit test passes exactly when the peer has already entered (or
/// moved strictly past) the matching round: its counter holds at least this
/// side's round number plus one.
pub proof fn lemma_exit_test_exact(s: HandshakeState, first: bool)
    requires
        inv(s),
        announced_of(s, first),
    ensures
        exit_test(s, first) <==> counter_of(s, !first) >= rounds_of(s, first) + 1,
{
}

/// Both sides stand at the same completed round with nothing outstanding.
pub open spec fn balanced(s: HandshakeState) -> bool {
    s.rounds_first == s.rounds_second && !s.announced_first && !s.announced_second
}

/// One matched barrier round, the `leader` side stepping first: both sides
/// announce, then both complete.
pub open spec fn matched_round(s: HandshakeState, leader: bool) -> HandshakeState {
    complete(complete(announce(announce(s, leader), !leader), leader), !leader)
}

/// The pair's state once both sides have called their synchronizing
/// operation `n` times in matched lock-step, the `leader` side stepping
/// first in every round.
pub open spec fn after_rounds(n: nat, leader: bool) -> HandshakeState
    decreases n,
{
    if n == 0 {
        initial_state()
    } else {
        matched_round(after_rounds((n - 1) as nat, leader), leader)
    }
}

/// One matched round from a balanced state: the side that announces alone
/// cannot pass the barrier yet; once the peer has announced as well, both
/// sides can, and completing both leaves the pair balanced one round
/// further.
pub proof fn lemma_matched_round(s: HandshakeState, leader: bool)
    requires
        balanced(s),
    ensures
        !can_complete(announce(s, leader), leader),
        can_complete(announce(announce(s, leader), !leader), leader),
        can_complete(announce(announce(s, leader), !leader), !leader),
        can_complete(complete(announce(announce(s, leader), !leader), leader), !leader),
        balanced(matched_round(s, leader)),
        rounds_of(matched_round(s, leader), true) == rounds_of(s, true) + 1,
        rounds_of(matched_round(s, leader), false) == rounds_of(s, false) + 1,
{
}

/// *Barrier alternation*: if both threads call their synchronizing
/// operation exactly `n` times in matched lock-step, whichever side steps
/// first, then both sides complete all `n` calls: no round is lost, skipped
/// or duplicated, and the pair ends balanced.
pub proof fn lemma_barrier_alternation(n: nat, leader: bool)
    ensures
        balanced(after_rounds(n, leader)),
        rounds_of(after_rounds(n, leader), true) == n,
        rounds_of(after_rounds(n, leader), false) == n,
    decreases n,
{
    if n > 0 {
        lemma_barrier_alternation((n - 1) as nat, leader);
        lemma_matched_round(after_rounds((n - 1) as nat, leader), leader);
    }
}

/// The machine-word counters decide the exit test exactly as unbounded
/// counters would: under the protocol invariant the peer's counter and this
/// side's round count are at most two apart, so their wrapped values agree
/// only when the values themselves do. This is why comparing against the
/// remembered pre-increment value is a sound exit test even though the words
/// wrap.
pub proof fn lemma_wrapped_exit_test_faithful(s: HandshakeState, first: bool)
    requires
        inv(s),
        announced_of(s, first),
    ensures
        (counter_of(s, !first) % gen_modulus() == rounds_of(s, first) % gen_modulus())
            <==> counter_of(s, !first) == rounds_of(s, first),
{
    let a = counter_of(s, !first) as int;
    let b = rounds_of(s, first) as int;
    let m = gen_modulus() as int;
    assert(b - 1 <= a <= b + 2);
    if a % m == b % m && a != b {
        lemma_mod_equivalence(a, b, m);
        lemma_mod_equivalence(b, a, m);
        if a > b {
            lemma_small_mod((a - b) as nat, gen_modulus());
        } else {
            lemma_small_mod((b - a) as nat, gen_modulus());
        }
    }
}

/// The slot the given side owns after `k` completed swap rounds: the first
/// side starts owning slot 0, the second slot 1, and every round exchanges
/// the two.
pub open spec fn owned_slot(first: bool, k: nat) -> nat {
    if first {
        k % 2
    } else {
        (k + 1) % 2
    }
}

/// A slot index is always 0 or 1.
pub proof fn lemma_owned_slot_bound(first: bool, k: nat)
    ensures
        owned_slot(first, k) == 0 || owned_slot(first, k) == 1,
{
}

/// *Exclusive ownership*: after any number of matched swap rounds, the two
/// sides of a pair own different slots.
pub proof fn lemma_owned_slots_disjoint(k: nat)
    ensures
        owned_slot(true, k) != owned_slot(false, k),
{
}

/// Each round moves a side to the other slot.
pub proof fn lemma_owned_slot_alternates(first: bool, k: nat)
    ensures
        owned_slot(first, k + 1) != owned_slot(first, k),
{
}

/// *Hand-over*: the slot a side acquires in round `k + 1` is exactly the
/// slot its peer owned in round `k`. Together with the handshake's ordering
/// guarantee, whatever the peer stored in its slot during round `k` is what
/// this side reads from its own slot in round `k + 1`.
pub proof fn lemma_swap_hands_over(k: nat)
    ensures
        owned_slot(true, k + 1) == owned_slot(false, k),
        owned_slot(false, k + 1) == owned_slot(true, k),
{
}

/// Contents of the two slots after `k` matched rounds in which each side
/// swaps and then adds one to the slot it has just acquired, both slots
/// starting at zero.
pub open spec fn incremented_contents(k: nat) -> Seq<int>
    decreases k,
{
    if k == 0 {
        seq![0, 0]
    } else {
        let prev = incremented_contents((k - 1) as nat);
        let fa = owned_slot(true, k) as int;
        let fb = owned_slot(false, k) as int;
        prev.update(fa, prev[fa] + 1).update(fb, prev[fb] + 1)
    }
}

/// *No lost or duplicated increments*: because the two sides never own the
/// same slot in a round, `k` rounds of one increment per side leave both
/// slots holding exactly `k`.
pub proof fn lemma_increments_exact(k: nat)
    ensures
        incremented_contents(k).len() == 2,
        incremented_contents(k)[0] == k,
        incremented_contents(k)[1] == k,
    decreases k,
{
    if k > 0 {
        lemma_increments_exact((k - 1) as nat);
        lemma_owned_slots_disjoint(k);
        lemma_owned_slot_bound(true, k);
        lemma_owned_slot_bound(false, k);
    }
}

} // verus!
