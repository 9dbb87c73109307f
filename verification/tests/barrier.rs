use rendezvous_swap::Padded;
use rendezvous_swap::Rendezvous;
use rendezvous_swap::rendezvous::handshake_complete;

// The two sides of a pair are driven in lock step from one thread through the
// non-blocking step `try_wait`: the side that steps first announces its round
// and keeps polling, and the peer's step then completes the round for both.

#[test]
fn test_rendezvous() {
    let (mut a, mut b) = Rendezvous::new();
    for _ in 1..5 {
        assert!(!a.try_wait()); // a announces; b has not entered the round
        assert!(b.try_wait()); // b enters and completes
        assert!(a.try_wait()); // b's counter moved: a completes
    }
}

#[test]
fn barrier_alternation_either_side_first() {
    let (mut a, mut b) = Rendezvous::new();
    for round in 0..100 {
        if round % 2 == 0 {
            assert!(!a.try_wait());
            assert!(b.try_wait());
            assert!(a.try_wait());
        } else {
            assert!(!b.try_wait());
            assert!(a.try_wait());
            assert!(b.try_wait());
        }
    }
}

#[test]
fn polling_side_stays_in_its_round() {
    let (mut a, mut b) = Rendezvous::new();
    // however often the early side polls, it cannot pass the barrier alone
    for _ in 0..1000 {
        assert!(!a.try_wait());
    }
    assert!(b.try_wait());
    assert!(a.try_wait());
}

#[test]
fn wait_completes_once_peer_has_entered() {
    let (mut a, mut b) = Rendezvous::new();
    for _ in 0..3 {
        assert!(!b.try_wait()); // b enters the round and polls
        assert!(a.wait()); // a enters; the peer is already there
        assert!(b.wait_inline()); // a's counter has moved: b completes
    }
}

#[test]
fn shared_block_outlives_either_handle() {
    // dropping one handle, in either order, leaves the other side's shared
    // block valid: the survivor can still announce and poll safely
    let (a, mut b) = Rendezvous::new();
    drop(a);
    assert!(!b.try_wait());
    let (mut c, d) = Rendezvous::new();
    drop(d);
    assert!(!c.try_wait());
    drop(c);
    drop(b);
}

#[test]
fn handshake_decision_is_inequality_with_old_generation() {
    assert!(!handshake_complete(3, 3));
    assert!(handshake_complete(4, 3));
    // a wrapped peer counter still differs from the remembered value
    assert!(handshake_complete(0, usize::MAX));
}

#[test]
fn padded_keeps_value() {
    let p = Padded::new(5u64);
    assert_eq!(p.i, 5);
    let q = Padded::new(-3i32);
    assert_eq!(q.i, -3);
}
