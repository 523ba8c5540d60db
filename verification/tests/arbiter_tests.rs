use tcp2serial::arbiter::{Arbiter, HandleMode};

#[test]
fn announce_then_grant_cycle() {
    let mut arb = Arbiter::new();
    let h = arb.register();
    assert_eq!(h, 0);
    assert_eq!(arb.mode(h), HandleMode::Idle);
    assert!(!arb.contended());

    arb.announce(h);
    assert_eq!(arb.mode(h), HandleMode::Requesting);
    assert!(arb.contended());
    assert_eq!(arb.pending_requests(), 1);

    arb.grant(h);
    assert_eq!(arb.mode(h), HandleMode::Holding);
    assert!(!arb.contended());
    assert_eq!(arb.pending_requests(), 0);

    arb.release(h);
    assert_eq!(arb.mode(h), HandleMode::Idle);
    assert_eq!(arb.pending_requests(), 0);
}

#[test]
fn counter_counts_each_announcement() {
    let mut arb = Arbiter::new();
    let a = arb.register();
    let b = arb.register();
    let c = arb.register();
    assert_eq!(arb.num_handles(), 3);

    arb.announce(a);
    arb.announce(b);
    arb.announce(c);
    assert_eq!(arb.pending_requests(), 3);

    arb.grant(a);
    assert_eq!(arb.pending_requests(), 2);
    assert!(arb.contended());
}

#[test]
fn abandon_restores_counter() {
    let mut arb = Arbiter::new();
    let a = arb.register();
    let b = arb.register();

    arb.announce(a);
    arb.announce(b);
    assert_eq!(arb.pending_requests(), 2);

    // Handle `a`'s task is dropped while its acquisition is in flight: the
    // defensive decrement brings the counter back in line.
    arb.abandon(a);
    assert_eq!(arb.pending_requests(), 1);
    assert_eq!(arb.mode(a), HandleMode::Idle);

    arb.abandon(b);
    assert_eq!(arb.pending_requests(), 0);
    assert!(!arb.contended());
}

#[test]
fn holder_sees_later_contention() {
    let mut arb = Arbiter::new();
    let a = arb.register();
    let b = arb.register();

    arb.announce(a);
    arb.grant(a);
    assert!(!arb.contended());

    arb.announce(b);
    assert!(arb.contended());

    // The holder yields; the waiting handle can now be granted.
    arb.release(a);
    arb.grant(b);
    assert_eq!(arb.mode(b), HandleMode::Holding);
    assert_eq!(arb.mode(a), HandleMode::Idle);
    assert!(!arb.contended());
}
