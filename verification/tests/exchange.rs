use rendezvous_swap::RendezvousData;

// The data slots live beside the counters in an embedding layer; here the
// test itself plays that layer with a plain two-slot array, indexed by what
// the handles return. Both sides are driven in lock step from one thread.

#[test]
fn test_rendezvous_data() {
    let (mut a, mut b) = RendezvousData::new();
    let mut slots: [i32; 2] = [0, 0];
    // first matched round
    assert!(a.try_swap().is_none()); // a announces; b has not entered
    let bi = b.try_swap().expect("peer has entered the round");
    slots[bi] = 3; // b writes into its newly owned slot
    let ai = a.try_swap().expect("peer has entered the round");
    slots[ai] = 7; // a writes into its newly owned slot
    assert_ne!(ai, bi);
    // second matched round: each side reads what the peer wrote
    assert!(a.try_swap().is_none());
    let bi = b.try_swap().expect("peer has entered the round");
    assert_eq!(7, slots[bi]);
    let ai = a.try_swap().expect("peer has entered the round");
    assert_eq!(3, slots[ai]);
}

#[test]
fn test_rendezvous_data_repeat() {
    let iterations: usize = 1000;
    let (mut a, mut b) = RendezvousData::new();
    let mut slots: [usize; 2] = [0, 0];
    for _ in 0..iterations {
        assert!(a.try_swap().is_none());
        let bi = b.try_swap().expect("peer has entered the round");
        let ai = a.try_swap().expect("peer has entered the round");
        assert_ne!(ai, bi);
        slots[ai] += 1;
        slots[bi] += 1;
    }
    // two further matched rounds change nothing; each slot was incremented
    // exactly once per round, so both sides now see the full count
    for _ in 0..2 {
        assert!(a.try_swap().is_none());
        let bi = b.try_swap().expect("peer has entered the round");
        let ai = a.try_swap().expect("peer has entered the round");
        assert_eq!(slots[ai], iterations);
        assert_eq!(slots[bi], iterations);
    }
}

#[test]
fn slots_never_collide_under_stress() {
    let (mut a, mut b) = RendezvousData::new();
    let mut owned_a: usize = 0;
    let mut owned_b: usize = 1;
    for _ in 0..100_000 {
        assert!(a.try_swap().is_none());
        let bi = b.try_swap().expect("peer has entered the round");
        let ai = a.try_swap().expect("peer has entered the round");
        // the two sides never own the same slot after a matched round,
        // and each acquires exactly the slot its peer has just given up
        assert_ne!(ai, bi);
        assert_eq!(ai, owned_b);
        assert_eq!(bi, owned_a);
        owned_a = ai;
        owned_b = bi;
    }
}

#[test]
fn blocking_swap_variants_complete_when_peer_is_there() {
    let (mut a, mut b) = RendezvousData::new();
    assert!(a.try_swap().is_none()); // a announces the round
    let bi = b.swap().expect("peer has entered the round");
    let ai = a.swap_inline().expect("peer has entered the round");
    assert_eq!(bi, 0); // b started owning slot 1 and acquired slot 0
    assert_eq!(ai, 1); // a started owning slot 0 and acquired slot 1
}

#[test]
fn early_side_keeps_its_slot_while_polling() {
    let (mut a, mut b) = RendezvousData::new();
    for _ in 0..100 {
        assert!(a.try_swap().is_none());
    }
    let bi = b.try_swap().expect("peer has entered the round");
    let ai = a.try_swap().expect("peer has entered the round");
    assert_eq!(ai, 1);
    assert_eq!(bi, 0);
}
